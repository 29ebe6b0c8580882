//! The colour a component is drawn in at the current frame.

use vstd::prelude::*;

use crate::graphics_component::color::{
    gradient_ends_kept, keyframe_colors, keyframe_keys, keyframes_accepted, mk_gradient, oklab_gradient_samples,
    color_values, AnimatedColorSpec, Color, ColorSpec, ColorSpecValue, GradientError,
    StaticColorSpec,
};

verus! {

/// A colour spec that can be turned into drawing state without failing: an
/// animated one needs a loop of at least two frames whose gradient starts on
/// the first keyframe colour and ends on the last.
pub open spec fn color_spec_drawable(c: ColorSpecValue) -> bool {
    match c {
        ColorSpecValue::Static(_) => true,
        ColorSpecValue::Animated(duration, keyframes) => duration >= 2 && gradient_ends_kept(
            keyframe_keys(keyframes),
            keyframe_colors(keyframes),
            duration as nat,
        ),
    }
}

/// `s` is the drawing state a colour spec starts with: a static colour as it
/// is; an animated one at the first step of a loop of `duration` steps, which
/// are the gradient's samples, from the first keyframe colour to the last.
pub open spec fn color_state_from(spec: ColorSpecValue, s: ColorDrawState) -> bool {
    match spec {
        ColorSpecValue::Static(rgb) => s matches ColorDrawState::Static(st) && st.spec_color()@ == rgb,
        ColorSpecValue::Animated(duration, keyframes) => s matches ColorDrawState::Animated(a) && {
            &&& duration >= 2
            &&& a.spec_step() == 0
            &&& a.spec_steps().len() == duration
            &&& color_values(a.spec_steps()) == oklab_gradient_samples(
                keyframe_keys(keyframes),
                keyframe_colors(keyframes),
                duration as nat,
            )
            &&& a.spec_steps()[0] == keyframes[0].1
            &&& a.spec_steps()[duration - 1] == keyframes[keyframes.len() - 1].1
        },
    }
}

/// The position of a counter that starts at `start` and moves on by one,
/// wrapping at `modulus`, after `k` moves.
pub open spec fn counter_after(start: nat, modulus: nat, k: nat) -> nat
    decreases k,
{
    if k == 0 {
        start
    } else {
        (counter_after(start, modulus, (k - 1) as nat) + 1) % modulus
    }
}

/// A wrapping counter after `k` moves is `(start + k) mod modulus`; after
/// `modulus` moves it is back where it started.
pub proof fn lemma_counter_after(start: nat, modulus: nat, k: nat)
    requires
        start < modulus,
    ensures
        counter_after(start, modulus, k) == (start + k) % modulus,
        counter_after(start, modulus, modulus) == start,
{
    lemma_counter_after_inner(start, modulus, k);
    lemma_counter_after_inner(start, modulus, modulus);
    vstd::arithmetic::div_mod::lemma_add_mod_noop(start as int, modulus as int, modulus as int);
    vstd::arithmetic::div_mod::lemma_mod_self_0(modulus as int);
    vstd::arithmetic::div_mod::lemma_small_mod(start, modulus);
}

proof fn lemma_counter_after_inner(start: nat, modulus: nat, k: nat)
    requires
        start < modulus,
    ensures
        counter_after(start, modulus, k) == (start + k) % modulus,
    decreases k,
{
    if k == 0 {
        vstd::arithmetic::div_mod::lemma_small_mod(start, modulus);
    } else {
        lemma_counter_after_inner(start, modulus, (k - 1) as nat);
        let x = (start + k - 1) as int;
        let m = modulus as int;
        vstd::arithmetic::div_mod::lemma_add_mod_noop(x, 1, m);
        vstd::arithmetic::div_mod::lemma_add_mod_noop(x % m, 1, m);
        vstd::arithmetic::div_mod::lemma_mod_twice(x, m);
        assert(((x % m) + 1) % m == (x + 1) % m);
    }
}

/// Drawing state of a colour that does not change.
#[derive(Debug)]
pub struct StaticColorDrawState {
    color: Color,
}

impl StaticColorDrawState {
    /// The colour drawn.
    pub closed spec fn spec_color(&self) -> Color {
        self.color
    }

    /// The state for a static colour spec.
    pub fn from(colorspec: StaticColorSpec) -> (s: Self)
        ensures
            s.spec_color() == colorspec.color,
    {
        Self { color: colorspec.color }
    }

    /// The colour drawn.
    pub fn get(&self) -> (c: Color)
        ensures
            c == self.spec_color(),
    {
        self.color
    }
}

/// Drawing state of an animated colour: every colour of the loop, computed up
/// front, and the position of the current frame in the loop.
#[derive(Debug)]
pub struct AnimatedColorDrawState {
    color_steps: Vec<Color>,
    cur_step: usize,
}

impl AnimatedColorDrawState {
    #[verifier::type_invariant]
    spec fn step_in_loop(self) -> bool {
        self.cur_step < self.color_steps@.len()
    }

    /// The colours of one loop, frame by frame.
    pub closed spec fn spec_steps(&self) -> Seq<Color> {
        self.color_steps@
    }

    /// The current frame's position in the loop.
    pub closed spec fn spec_step(&self) -> nat {
        self.cur_step as nat
    }

    /// The state for an animated colour spec: the loop's colours are the
    /// gradient through the keyframes, the first frame shows the first keyframe
    /// colour and the last frame the last keyframe colour. Refused when the
    /// gradient does not start and end on those colours.
    pub fn try_from(colorspec: AnimatedColorSpec) -> (res: Result<Self, GradientError>)
        requires
            colorspec.spec_duration() >= 2,
        ensures
            res is Ok <==> gradient_ends_kept(
                keyframe_keys(colorspec.spec_keyframes()),
                keyframe_colors(colorspec.spec_keyframes()),
                colorspec.spec_duration() as nat,
            ),
            res matches Ok(s) ==> s.spec_step() == 0 && s.spec_steps().len()
                == colorspec.spec_duration(),
            res matches Ok(s) ==> color_values(s.spec_steps()) == oklab_gradient_samples(
                keyframe_keys(colorspec.spec_keyframes()),
                keyframe_colors(colorspec.spec_keyframes()),
                colorspec.spec_duration() as nat,
            ),
            res matches Ok(s) ==> s.spec_steps()[0] == colorspec.spec_keyframes()[0].1,
            res matches Ok(s) ==> s.spec_steps()[colorspec.spec_duration() - 1]
                == colorspec.spec_keyframes()[colorspec.spec_keyframes().len() - 1].1,
    {
        let duration = colorspec.duration();
        let keyframes = colorspec.keyframes();
        let ghost keys = keyframe_keys(keyframes@);
        proof {
            assert(keys.len() == keyframes@.len());
            assert(keys[0] == 0 && keys[keys.len() - 1] == 100);
            assert(keys[0] < keys[1]);
            assert(keys[keys.len() - 2] < keys[keys.len() - 1]);
            assert(forall|i: int| 0 < i < keys.len() ==> keys[i - 1] <= #[trigger] keys[i]);
        }
        match mk_gradient(keyframes, duration) {
            Ok(gradient) => Ok(Self { color_steps: gradient, cur_step: 0 }),
            Err(e) => Err(e),
        }
    }

    /// The colour of the current frame.
    pub fn get(&self) -> (c: Color)
        ensures
            c == self.spec_steps()[self.spec_step() as int],
            self.spec_step() < self.spec_steps().len(),
    {
        proof {
            use_type_invariant(self);
        }
        self.color_steps[self.cur_step]
    }

    /// Moves on to the next frame of the loop, wrapping after the last.
    pub fn advance_frame(&mut self)
        ensures
            final(self).spec_steps() == old(self).spec_steps(),
            final(self).spec_step() == counter_after(
                old(self).spec_step(),
                old(self).spec_steps().len(),
                1,
            ),
    {
        proof {
            use_type_invariant(&*self);
            reveal_with_fuel(counter_after, 2);
        }
        let len = self.color_steps.len();
        let next = (self.cur_step + 1) % len;
        self.cur_step = next;
    }
}

/// The drawing state of a colour.
#[derive(Debug)]
pub enum ColorDrawState {
    Static(StaticColorDrawState),
    Animated(AnimatedColorDrawState),
}

/// The colour a drawing state shows now.
pub open spec fn current_color(s: ColorDrawState) -> Color {
    match s {
        ColorDrawState::Static(st) => st.spec_color(),
        ColorDrawState::Animated(a) => a.spec_steps()[a.spec_step() as int],
    }
}

impl ColorDrawState {
    /// The drawing state for a colour spec; an animated colour starts at its
    /// first keyframe colour.
    pub fn from(colorspec: ColorSpec) -> (s: Self)
        requires
            color_spec_drawable(colorspec@),
        ensures
            colorspec matches ColorSpec::Static(st) ==> s == ColorDrawState::Static(
                StaticColorDrawState::from_spec_value(st),
            ) && current_color(s) == st.color,
            colorspec matches ColorSpec::Animated(a) ==> (s matches ColorDrawState::Animated(d)
                && d.spec_step() == 0 && d.spec_steps().len() == a.spec_duration() && color_values(
                d.spec_steps(),
            ) == oklab_gradient_samples(
                keyframe_keys(a.spec_keyframes()),
                keyframe_colors(a.spec_keyframes()),
                a.spec_duration() as nat,
            ) && current_color(s) == a.spec_keyframes()[0].1),
            color_state_from(colorspec@, s),
    {
        match colorspec {
            ColorSpec::Static(spec) => Self::Static(StaticColorDrawState::from(spec)),
            ColorSpec::Animated(spec) => {
                let ghost a = spec;
                match AnimatedColorDrawState::try_from(spec) {
                    Ok(d) => Self::Animated(d),
                    Err(_) => {
                        proof {
                            assert(false);
                        }
                        Self::Static(StaticColorDrawState { color: Color::from_rgb(0, 0, 0) })
                    },
                }
            },
        }
    }

    /// The colour shown now.
    pub fn get(&self) -> (c: Color)
        ensures
            c == current_color(*self),
    {
        match self {
            Self::Static(s) => s.get(),
            Self::Animated(a) => a.get(),
        }
    }

    /// Whether the colour changes from frame to frame.
    pub fn is_animated(&self) -> (b: bool)
        ensures
            b == (*self is Animated),
    {
        match self {
            Self::Static(_) => false,
            Self::Animated(_) => true,
        }
    }

    /// Moves on one frame; a static colour stays as it is.
    pub fn advance_frame(&mut self)
        ensures
            *old(self) is Static ==> *final(self) == *old(self),
            *old(self) matches ColorDrawState::Animated(a) ==> (*final(self) matches ColorDrawState::Animated(b)
                && b.spec_steps() == a.spec_steps() && b.spec_step() == counter_after(
                a.spec_step(),
                a.spec_steps().len(),
                1,
            )),
    {
        match self {
            Self::Static(_) => (),
            Self::Animated(a) => a.advance_frame(),
        }
    }
}

impl StaticColorDrawState {
    /// The state a static colour spec gives.
    pub closed spec fn from_spec_value(colorspec: StaticColorSpec) -> Self {
        StaticColorDrawState { color: colorspec.color }
    }
}

} // verus!
