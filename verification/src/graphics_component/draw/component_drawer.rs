//! Drawers: each component together with the state it is drawn with at the
//! current frame.

use std::sync::Arc;

use vstd::prelude::*;

use super::color_state::{
    color_spec_drawable, color_state_from, counter_after, current_color, lemma_counter_after,
    ColorDrawState,
};
use super::DrawerCreationError;
use crate::graphics_component::color::{Color, ColorSpecValue};
use crate::graphics_component::{
    Component, ComponentValue, Image, ImageValue, Line, LineValue, Rectangle, RectangleValue, Text,
    TextValue,
};
use crate::upload::{UploadManager, UploadedAsset};

verus! {

/// An asset that can be drawn: an animation needs at least one frame.
pub open spec fn asset_drawable(a: UploadedAsset) -> bool {
    a matches UploadedAsset::AnimatedImage(b) ==> b@.len() > 0
}

/// The file an image component names is drawable, if it is stored.
pub open spec fn source_drawable(assets: Map<Seq<char>, UploadedAsset>, name: Seq<char>) -> bool {
    assets.contains_key(name) ==> asset_drawable(assets[name])
}

/// A component that can be turned into a drawer without failing: its colours
/// can be drawn and the image it names, if stored, can be drawn.
pub open spec fn component_drawable(c: ComponentValue, assets: Map<Seq<char>, UploadedAsset>) -> bool {
    match c {
        ComponentValue::Image(i) => source_drawable(assets, i.source),
        ComponentValue::Text(t) => color_spec_drawable(t.color),
        ComponentValue::Line(l) => color_spec_drawable(l.color),
        ComponentValue::Rectangle(r) => color_spec_drawable(r.border_color) && (r.fill_color matches Some(
            f,
        ) ==> color_spec_drawable(f)),
    }
}

/// The colour a colour spec is drawn in on the first frame.
pub open spec fn initial_color(c: ColorSpecValue) -> (u8, u8, u8) {
    match c {
        ColorSpecValue::Static(rgb) => rgb,
        ColorSpecValue::Animated(_, keyframes) => keyframes[0].1@,
    }
}

/// `b` is `a` moved on by one frame.
pub open spec fn color_advanced(a: ColorDrawState, b: ColorDrawState) -> bool {
    match a {
        ColorDrawState::Static(_) => b == a,
        ColorDrawState::Animated(x) => b matches ColorDrawState::Animated(y) && y.spec_steps()
            == x.spec_steps() && y.spec_step() == counter_after(
            x.spec_step(),
            x.spec_steps().len(),
            1,
        ),
    }
}

/// Whether a colour spec is animated.
pub open spec fn spec_animated(c: ColorSpecValue) -> bool {
    c is Animated
}

/// The asset behind a shared handle.
pub open spec fn shared_value(a: &Arc<UploadedAsset>) -> UploadedAsset {
    **a
}

/// Error text: an image component names a file that is not stored.
pub open spec fn missing_image_msg() -> Seq<char> {
    "Could not find filename in database"@
}

/// Draws a line.
pub struct LineDrawer {
    component: Line,
    color: ColorDrawState,
}

impl LineDrawer {
    /// The line drawn.
    pub closed spec fn spec_component(&self) -> LineValue {
        self.component@
    }

    /// The drawing state of its colour.
    pub closed spec fn spec_color(&self) -> ColorDrawState {
        self.color
    }

    /// The drawer of a line, starting at the first frame.
    pub fn from(component: Line) -> (d: Self)
        requires
            color_spec_drawable(component.color@),
        ensures
            d.spec_component() == component@,
            color_state_from(component.color@, d.spec_color()),
            d.spec_color() is Animated <==> spec_animated(component.color@),
            current_color(d.spec_color())@ == initial_color(component.color@),
    {
        let color = ColorDrawState::from(component.color.duplicate());
        Self { component, color }
    }

    /// Moves on one frame.
    pub fn advance_frame(&mut self)
        ensures
            final(self).spec_component() == old(self).spec_component(),
            color_advanced(old(self).spec_color(), final(self).spec_color()),
    {
        self.color.advance_frame();
    }

    /// A copy of the line.
    pub fn get_cloned_component(&self) -> (c: Component)
        ensures
            c@ == ComponentValue::Line(self.spec_component()),
    {
        Component::Line(self.component.duplicate())
    }

    /// Whether the line looks the same on every frame.
    pub fn is_static(&self) -> (b: bool)
        ensures
            b == !(self.spec_color() is Animated),
    {
        !self.color.is_animated()
    }

    /// The line drawn.
    pub fn component(&self) -> (c: &Line)
        ensures
            c@ == self.spec_component(),
    {
        &self.component
    }

    /// The colour of the current frame.
    pub fn color(&self) -> (c: Color)
        ensures
            c == current_color(self.spec_color()),
    {
        self.color.get()
    }
}

/// Draws a text.
pub struct TextDrawer {
    component: Text,
    color: ColorDrawState,
}

impl TextDrawer {
    /// The text drawn.
    pub closed spec fn spec_component(&self) -> TextValue {
        self.component@
    }

    /// The drawing state of its colour.
    pub closed spec fn spec_color(&self) -> ColorDrawState {
        self.color
    }

    /// The drawer of a text, starting at the first frame.
    pub fn from(component: Text) -> (d: Self)
        requires
            color_spec_drawable(component.color@),
        ensures
            d.spec_component() == component@,
            color_state_from(component.color@, d.spec_color()),
            d.spec_color() is Animated <==> spec_animated(component.color@),
            current_color(d.spec_color())@ == initial_color(component.color@),
    {
        let color = ColorDrawState::from(component.color.duplicate());
        Self { component, color }
    }

    /// Moves on one frame.
    pub fn advance_frame(&mut self)
        ensures
            final(self).spec_component() == old(self).spec_component(),
            color_advanced(old(self).spec_color(), final(self).spec_color()),
    {
        self.color.advance_frame();
    }

    /// A copy of the text component.
    pub fn get_cloned_component(&self) -> (c: Component)
        ensures
            c@ == ComponentValue::Text(self.spec_component()),
    {
        Component::Text(self.component.duplicate())
    }

    /// Whether the text looks the same on every frame.
    pub fn is_static(&self) -> (b: bool)
        ensures
            b == !(self.spec_color() is Animated),
    {
        !self.color.is_animated()
    }

    /// The text drawn.
    pub fn component(&self) -> (c: &Text)
        ensures
            c@ == self.spec_component(),
    {
        &self.component
    }

    /// The colour of the current frame.
    pub fn color(&self) -> (c: Color)
        ensures
            c == current_color(self.spec_color()),
    {
        self.color.get()
    }
}

/// Draws a rectangle.
pub struct RectDrawer {
    component: Rectangle,
    border_color: ColorDrawState,
    fill_color: Option<ColorDrawState>,
}

impl RectDrawer {
    /// The rectangle drawn.
    pub closed spec fn spec_component(&self) -> RectangleValue {
        self.component@
    }

    /// The drawing state of its border colour.
    pub closed spec fn spec_border_color(&self) -> ColorDrawState {
        self.border_color
    }

    /// The drawing state of its fill colour, if it is filled.
    pub closed spec fn spec_fill_color(&self) -> Option<ColorDrawState> {
        self.fill_color
    }

    /// The drawer of a rectangle, starting at the first frame.
    pub fn from(component: Rectangle) -> (d: Self)
        requires
            color_spec_drawable(component.border_color@),
            component.fill_color matches Some(f) ==> color_spec_drawable(f@),
        ensures
            d.spec_component() == component@,
            d.spec_border_color() is Animated <==> spec_animated(component.border_color@),
            current_color(d.spec_border_color())@ == initial_color(component.border_color@),
            d.spec_fill_color() is Some <==> component.fill_color is Some,
            component.fill_color matches Some(f) ==> (d.spec_fill_color() matches Some(s) && (s is Animated
                <==> spec_animated(f@)) && current_color(s)@ == initial_color(f@)),
            color_state_from(component.border_color@, d.spec_border_color()),
            component.fill_color matches Some(f) ==> (d.spec_fill_color() matches Some(st) && color_state_from(
                f@,
                st,
            )),
    {
        let fill_color = match &component.fill_color {
            Some(c) => Some(ColorDrawState::from(c.duplicate())),
            None => None,
        };
        let border_color = ColorDrawState::from(component.border_color.duplicate());
        Self { component, border_color, fill_color }
    }

    /// Moves on one frame.
    pub fn advance_frame(&mut self)
        ensures
            final(self).spec_component() == old(self).spec_component(),
            color_advanced(old(self).spec_border_color(), final(self).spec_border_color()),
            old(self).spec_fill_color() is None ==> final(self).spec_fill_color() is None,
            old(self).spec_fill_color() matches Some(a) ==> (final(self).spec_fill_color() matches Some(
                b,
            ) && color_advanced(a, b)),
    {
        self.border_color.advance_frame();
        if let Some(ref mut color) = self.fill_color {
            color.advance_frame();
        }
    }

    /// A copy of the rectangle.
    pub fn get_cloned_component(&self) -> (c: Component)
        ensures
            c@ == ComponentValue::Rectangle(self.spec_component()),
    {
        Component::Rectangle(self.component.duplicate())
    }

    /// Whether the rectangle looks the same on every frame.
    pub fn is_static(&self) -> (b: bool)
        ensures
            b == !(self.spec_border_color() is Animated || (self.spec_fill_color() matches Some(f)
                && f is Animated)),
    {
        if self.border_color.is_animated() {
            return false;
        }
        if let Some(ref f) = self.fill_color {
            if f.is_animated() {
                return false;
            }
        }
        true
    }

    /// The rectangle drawn.
    pub fn component(&self) -> (c: &Rectangle)
        ensures
            c@ == self.spec_component(),
    {
        &self.component
    }

    /// The border colour of the current frame.
    pub fn border_color(&self) -> (c: Color)
        ensures
            c == current_color(self.spec_border_color()),
    {
        self.border_color.get()
    }

    /// The fill colour of the current frame, if the rectangle is filled.
    pub fn fill_color(&self) -> (c: Option<Color>)
        ensures
            c is Some <==> self.spec_fill_color() is Some,
            c matches Some(x) ==> x == current_color(self.spec_fill_color()->0),
    {
        match &self.fill_color {
            Some(f) => Some(f.get()),
            None => None,
        }
    }
}

/// LED frames each GIF frame lasts for: the requested number, or 5 when none
/// (or zero) is requested.
pub open spec fn gif_slowdown(requested: Option<usize>) -> nat {
    match requested {
        Some(x) => if x == 0 { 5 } else { x as nat },
        None => 5,
    }
}

/// The length of an animation's loop in LED frames, capped at the largest `usize`.
pub open spec fn gif_loop_frames(frames: nat, slowdown: nat) -> nat {
    if frames * slowdown > usize::MAX {
        usize::MAX as nat
    } else {
        frames * slowdown
    }
}

/// Draws an uploaded image or animation.
pub struct ImageDrawer {
    component: Image,
    image_data: Arc<UploadedAsset>,
    frame_num: usize,
}

impl ImageDrawer {
    #[verifier::type_invariant]
    spec fn frame_in_loop(self) -> bool {
        match *self.image_data {
            UploadedAsset::Image(_) => self.frame_num == 0,
            UploadedAsset::AnimatedImage(a) => a@.len() > 0 && self.frame_num < gif_loop_frames(
                a@.len(),
                gif_slowdown(self.component.frame_slowdown),
            ),
        }
    }

    /// The image component drawn.
    pub closed spec fn spec_component(&self) -> ImageValue {
        self.component@
    }

    /// The asset drawn.
    pub closed spec fn spec_asset(&self) -> UploadedAsset {
        *self.image_data
    }

    /// LED frames shown since the animation's loop began.
    pub closed spec fn spec_frame_num(&self) -> nat {
        self.frame_num as nat
    }

    /// The drawer of an image component, if its file is stored.
    pub fn try_from_component(component: Image, upload_manager: &UploadManager) -> (res: Result<
        Self,
        DrawerCreationError,
    >)
        requires
            source_drawable(upload_manager.spec_assets(), component.source@),
        ensures
            res is Ok <==> upload_manager.spec_assets().contains_key(component.source@),
            res matches Ok(d) ==> d.spec_component() == component@ && d.spec_asset()
                == upload_manager.spec_assets()[component.source@] && d.spec_frame_num() == 0,
            res matches Err(e) ==> (e matches DrawerCreationError::BadComponentSpec(m) && m@
                == missing_image_msg()),
    {
        match upload_manager.retrieve(component.source.as_str()) {
            Some(image_data) => {
                let ghost asset = shared_value(&image_data);
                proof {
                    if asset is AnimatedImage {
                        let n = asset->AnimatedImage_0@.len();
                        let sl = gif_slowdown(component.frame_slowdown);
                        assert(sl >= 1);
                        assert(n * sl >= 1) by (nonlinear_arith)
                            requires
                                n >= 1,
                                sl >= 1,
                        ;
                    }
                }
                Ok(Self { component, image_data, frame_num: 0 })
            },
            None => Err(
                DrawerCreationError::BadComponentSpec(
                    "Could not find filename in database".to_owned(),
                ),
            ),
        }
    }

    /// LED frames each GIF frame lasts for.
    fn slowdown(&self) -> (s: usize)
        ensures
            s as nat == gif_slowdown(self.component.frame_slowdown),
            s >= 1,
    {
        match self.component.frame_slowdown {
            Some(0) | None => 5,
            Some(x) => x,
        }
    }

    /// Moves on one LED frame; an animation loops after all its frames were
    /// each shown for the slowdown's number of LED frames.
    pub fn advance_frame(&mut self)
        ensures
            final(self).spec_component() == old(self).spec_component(),
            final(self).spec_asset() == old(self).spec_asset(),
            old(self).spec_asset() is Image ==> final(self).spec_frame_num() == old(self).spec_frame_num(),
            old(self).spec_asset() matches UploadedAsset::AnimatedImage(a) ==> final(self).spec_frame_num()
                == counter_after(
                old(self).spec_frame_num(),
                gif_loop_frames(a@.len(), gif_slowdown(old(self).spec_component().frame_slowdown)),
                1,
            ),
    {
        proof {
            use_type_invariant(&*self);
            reveal_with_fuel(counter_after, 2);
        }
        let slowdown = self.slowdown();
        if let UploadedAsset::AnimatedImage(animated) = &*self.image_data {
            let frames = animated.get_frames().len();
            let modulus = match frames.checked_mul(slowdown) {
                Some(m) => m,
                None => usize::MAX,
            };
            assert(modulus as nat == gif_loop_frames(frames as nat, slowdown as nat));
            let next = (self.frame_num + 1) % modulus;
            self.frame_num = next;
        }
    }

    /// The pixels to draw now, as RGB bytes, and the image width: the image
    /// itself, or the animation frame `frame_num / slowdown` with the width of
    /// the animation's first frame.
    pub fn current_frame(&self) -> (r: (&[u8], u32))
        ensures
            self.spec_asset() matches UploadedAsset::Image(b) ==> r.0@ == b@.2 && r.1 == b@.0,
            self.spec_asset() matches UploadedAsset::AnimatedImage(a) ==> ({
                let i = self.spec_frame_num() / gif_slowdown(self.spec_component().frame_slowdown);
                &&& i < a@.len()
                &&& r.0@ == a@[i as int].2
                &&& r.1 == a@[0].0
            }),
    {
        proof {
            use_type_invariant(self);
        }
        let slowdown = self.slowdown();
        match &*self.image_data {
            UploadedAsset::Image(b) => (b.get_rgb_raw(), b.get_width()),
            UploadedAsset::AnimatedImage(a) => {
                let frames = a.get_frames();
                let n = frames.len();
                let idx = self.frame_num / slowdown;
                assert(idx < n) by (nonlinear_arith)
                    requires
                        self.frame_num < n * slowdown,
                        slowdown >= 1,
                        idx == self.frame_num / slowdown,
                ;
                assert(crate::upload::frame_values(frames@)[idx as int] == frames@[idx as int]@);
                assert(crate::upload::frame_values(frames@)[0] == frames@[0]@);
                (frames[idx].get_rgb_raw(), a.get_width())
            },
        }
    }

    /// A copy of the image component.
    pub fn get_cloned_component(&self) -> (c: Component)
        ensures
            c@ == ComponentValue::Image(self.spec_component()),
    {
        Component::Image(self.component.duplicate())
    }

    /// Whether the image looks the same on every frame (it is not animated).
    pub fn is_static(&self) -> (b: bool)
        ensures
            b == !(self.spec_asset() is AnimatedImage),
    {
        match &*self.image_data {
            UploadedAsset::AnimatedImage(_) => false,
            UploadedAsset::Image(_) => true,
        }
    }

    /// The image component drawn.
    pub fn component(&self) -> (c: &Image)
        ensures
            c@ == self.spec_component(),
    {
        &self.component
    }
}

/// A drawer of any kind of component.
pub enum ComponentDrawer {
    Image(ImageDrawer),
    Line(LineDrawer),
    Text(TextDrawer),
    Rect(RectDrawer),
}

/// The component a drawer draws.
pub open spec fn drawer_component(d: ComponentDrawer) -> ComponentValue {
    match d {
        ComponentDrawer::Image(x) => ComponentValue::Image(x.spec_component()),
        ComponentDrawer::Line(x) => ComponentValue::Line(x.spec_component()),
        ComponentDrawer::Text(x) => ComponentValue::Text(x.spec_component()),
        ComponentDrawer::Rect(x) => ComponentValue::Rectangle(x.spec_component()),
    }
}

/// Whether a drawer draws the same picture on every frame.
pub open spec fn drawer_static(d: ComponentDrawer) -> bool {
    match d {
        ComponentDrawer::Image(x) => !(x.spec_asset() is AnimatedImage),
        ComponentDrawer::Line(x) => !(x.spec_color() is Animated),
        ComponentDrawer::Text(x) => !(x.spec_color() is Animated),
        ComponentDrawer::Rect(x) => !(x.spec_border_color() is Animated || (x.spec_fill_color() matches Some(
            f,
        ) && f is Animated)),
    }
}

/// `d` is the drawer a component starts with: the same kind of drawer of the
/// same component, each colour state as its colour spec starts, and an image
/// drawer at the first frame of the stored asset the component names.
pub open spec fn drawer_built_from(c: ComponentValue, d: ComponentDrawer, assets: Map<Seq<char>, UploadedAsset>) -> bool {
    match (c, d) {
        (ComponentValue::Image(i), ComponentDrawer::Image(x)) => {
            &&& x.spec_component() == i
            &&& x.spec_asset() == assets[i.source]
            &&& x.spec_frame_num() == 0
        },
        (ComponentValue::Text(t), ComponentDrawer::Text(x)) => x.spec_component() == t && color_state_from(
            t.color,
            x.spec_color(),
        ),
        (ComponentValue::Line(l), ComponentDrawer::Line(x)) => x.spec_component() == l && color_state_from(
            l.color,
            x.spec_color(),
        ),
        (ComponentValue::Rectangle(r), ComponentDrawer::Rect(x)) => {
            &&& x.spec_component() == r
            &&& color_state_from(r.border_color, x.spec_border_color())
            &&& (r.fill_color is None ==> x.spec_fill_color() is None)
            &&& (r.fill_color matches Some(f) ==> (x.spec_fill_color() matches Some(st) && color_state_from(
                f,
                st,
            )))
        },
        _ => false,
    }
}

/// A component looks the same on every frame: all its colours are static, and
/// an image's stored asset is not an animation.
pub open spec fn component_spec_static(c: ComponentValue, assets: Map<Seq<char>, UploadedAsset>) -> bool {
    match c {
        ComponentValue::Image(i) => !(assets[i.source] is AnimatedImage),
        ComponentValue::Text(t) => t.color is Static,
        ComponentValue::Line(l) => l.color is Static,
        ComponentValue::Rectangle(r) => r.border_color is Static && (r.fill_color matches Some(f) ==> f is Static),
    }
}

/// `b` is the drawer `a` one frame later: the same kind of drawer of the same
/// component, each animated colour one step further in its loop, and an
/// animation one LED frame further in its loop.
pub open spec fn drawer_advanced(a: ComponentDrawer, b: ComponentDrawer) -> bool {
    match (a, b) {
        (ComponentDrawer::Image(x), ComponentDrawer::Image(y)) => {
            &&& y.spec_component() == x.spec_component()
            &&& y.spec_asset() == x.spec_asset()
            &&& (x.spec_asset() is Image ==> y.spec_frame_num() == x.spec_frame_num())
            &&& (x.spec_asset() matches UploadedAsset::AnimatedImage(an) ==> y.spec_frame_num()
                == counter_after(
                x.spec_frame_num(),
                gif_loop_frames(an@.len(), gif_slowdown(x.spec_component().frame_slowdown)),
                1,
            ))
        },
        (ComponentDrawer::Line(x), ComponentDrawer::Line(y)) => y.spec_component() == x.spec_component()
            && color_advanced(x.spec_color(), y.spec_color()),
        (ComponentDrawer::Text(x), ComponentDrawer::Text(y)) => y.spec_component() == x.spec_component()
            && color_advanced(x.spec_color(), y.spec_color()),
        (ComponentDrawer::Rect(x), ComponentDrawer::Rect(y)) => {
            &&& y.spec_component() == x.spec_component()
            &&& color_advanced(x.spec_border_color(), y.spec_border_color())
            &&& (x.spec_fill_color() is None ==> y.spec_fill_color() is None)
            &&& (x.spec_fill_color() matches Some(fa) ==> (y.spec_fill_color() matches Some(fb)
                && color_advanced(fa, fb)))
        },
        _ => false,
    }
}

impl ComponentDrawer {
    /// The drawer of a component, starting at the first frame; an image
    /// component's file must be stored.
    pub fn from_component(comp: Component, upload_manager: &UploadManager) -> (res: Result<
        Self,
        DrawerCreationError,
    >)
        requires
            component_drawable(comp@, upload_manager.spec_assets()),
        ensures
            res is Ok <==> (comp@ matches ComponentValue::Image(i) ==> upload_manager.spec_assets().contains_key(i.source)),
            res matches Ok(d) ==> drawer_component(d) == comp@,
            res matches Ok(d) ==> drawer_built_from(comp@, d, upload_manager.spec_assets()),
            res matches Ok(d) ==> (drawer_static(d) <==> component_spec_static(comp@, upload_manager.spec_assets())),
            res matches Err(e) ==> (e matches DrawerCreationError::BadComponentSpec(m) && m@
                == missing_image_msg()),
    {
        match comp {
            Component::Image(image) => match ImageDrawer::try_from_component(image, upload_manager) {
                Ok(d) => Ok(Self::Image(d)),
                Err(e) => Err(e),
            },
            Component::Text(text) => Ok(Self::Text(TextDrawer::from(text))),
            Component::Line(line) => Ok(Self::Line(LineDrawer::from(line))),
            Component::Rectangle(rectangle) => Ok(Self::Rect(RectDrawer::from(rectangle))),
        }
    }

    /// Moves on one frame; the component drawn stays the same.
    pub fn advance_frame(&mut self)
        ensures
            drawer_advanced(*old(self), *final(self)),
            drawer_component(*final(self)) == drawer_component(*old(self)),
            drawer_static(*final(self)) == drawer_static(*old(self)),
    {
        match self {
            Self::Image(drawer) => drawer.advance_frame(),
            Self::Line(drawer) => drawer.advance_frame(),
            Self::Text(drawer) => drawer.advance_frame(),
            Self::Rect(drawer) => drawer.advance_frame(),
        }
    }

    /// A copy of the component drawn.
    pub fn get_cloned_component(&self) -> (c: Component)
        ensures
            c@ == drawer_component(*self),
    {
        match self {
            Self::Image(drawer) => drawer.get_cloned_component(),
            Self::Line(drawer) => drawer.get_cloned_component(),
            Self::Text(drawer) => drawer.get_cloned_component(),
            Self::Rect(drawer) => drawer.get_cloned_component(),
        }
    }

    /// Whether the component looks the same on every frame.
    pub fn is_static(&self) -> (b: bool)
        ensures
            b == drawer_static(*self),
    {
        match self {
            Self::Image(drawer) => drawer.is_static(),
            Self::Line(drawer) => drawer.is_static(),
            Self::Text(drawer) => drawer.is_static(),
            Self::Rect(drawer) => drawer.is_static(),
        }
    }
}

/// `b` is the colour state `a` after `k` frames: a static colour unchanged, an
/// animated one `k` steps further round its loop.
pub open spec fn color_after(a: ColorDrawState, b: ColorDrawState, k: nat) -> bool {
    match a {
        ColorDrawState::Static(_) => b == a,
        ColorDrawState::Animated(x) => b matches ColorDrawState::Animated(y) && y.spec_steps()
            == x.spec_steps() && y.spec_step() == counter_after(x.spec_step(), x.spec_steps().len(), k),
    }
}

/// `b` is the drawer `a` after `k` frames: the same component, every colour
/// `k` steps further, and an animation `k` LED frames further round its loop.
pub open spec fn drawer_after(a: ComponentDrawer, b: ComponentDrawer, k: nat) -> bool {
    match (a, b) {
        (ComponentDrawer::Image(x), ComponentDrawer::Image(y)) => {
            &&& y.spec_component() == x.spec_component()
            &&& y.spec_asset() == x.spec_asset()
            &&& (x.spec_asset() is Image ==> y.spec_frame_num() == x.spec_frame_num())
            &&& (x.spec_asset() matches UploadedAsset::AnimatedImage(an) ==> y.spec_frame_num()
                == counter_after(
                x.spec_frame_num(),
                gif_loop_frames(an@.len(), gif_slowdown(x.spec_component().frame_slowdown)),
                k,
            ))
        },
        (ComponentDrawer::Line(x), ComponentDrawer::Line(y)) => y.spec_component() == x.spec_component()
            && color_after(x.spec_color(), y.spec_color(), k),
        (ComponentDrawer::Text(x), ComponentDrawer::Text(y)) => y.spec_component() == x.spec_component()
            && color_after(x.spec_color(), y.spec_color(), k),
        (ComponentDrawer::Rect(x), ComponentDrawer::Rect(y)) => {
            &&& y.spec_component() == x.spec_component()
            &&& color_after(x.spec_border_color(), y.spec_border_color(), k)
            &&& (x.spec_fill_color() is None ==> y.spec_fill_color() is None)
            &&& (x.spec_fill_color() matches Some(fa) ==> (y.spec_fill_color() matches Some(fb)
                && color_after(fa, fb, k)))
        },
        _ => false,
    }
}

/// Each drawer of `ds` is the one before it one frame later.
pub open spec fn drawer_frames(ds: Seq<ComponentDrawer>) -> bool {
    forall|i: int| 0 <= i < ds.len() - 1 ==> drawer_advanced(#[trigger] ds[i], ds[i + 1])
}

proof fn lemma_color_after_step(a: ColorDrawState, b: ColorDrawState, c: ColorDrawState, k: nat)
    requires
        color_after(a, b, k),
        color_advanced(b, c),
    ensures
        color_after(a, c, k + 1),
{
    reveal_with_fuel(counter_after, 2);
}

/// Frame after frame, a drawer keeps its component and whether it is static,
/// and after `k` frames it is the first drawer `k` frames on ([`drawer_after`]).
pub proof fn lemma_drawer_frames(ds: Seq<ComponentDrawer>, k: int)
    requires
        drawer_frames(ds),
        0 <= k < ds.len(),
    ensures
        drawer_after(ds[0], ds[k], k as nat),
        drawer_component(ds[k]) == drawer_component(ds[0]),
        drawer_static(ds[k]) == drawer_static(ds[0]),
    decreases k,
{
    reveal_with_fuel(counter_after, 2);
    if k == 0 {
        match ds[0] {
            ComponentDrawer::Image(x) => {},
            ComponentDrawer::Line(x) => {},
            ComponentDrawer::Text(x) => {},
            ComponentDrawer::Rect(x) => {},
        }
    } else {
        lemma_drawer_frames(ds, k - 1);
        assert(drawer_advanced(ds[k - 1], ds[k]));
        match (ds[0], ds[k - 1], ds[k]) {
            (ComponentDrawer::Line(a), ComponentDrawer::Line(b), ComponentDrawer::Line(c)) => {
                lemma_color_after_step(a.spec_color(), b.spec_color(), c.spec_color(), (k - 1) as nat);
            },
            (ComponentDrawer::Text(a), ComponentDrawer::Text(b), ComponentDrawer::Text(c)) => {
                lemma_color_after_step(a.spec_color(), b.spec_color(), c.spec_color(), (k - 1) as nat);
            },
            (ComponentDrawer::Rect(a), ComponentDrawer::Rect(b), ComponentDrawer::Rect(c)) => {
                lemma_color_after_step(a.spec_border_color(), b.spec_border_color(), c.spec_border_color(), (k - 1) as nat);
                if a.spec_fill_color() is Some {
                    lemma_color_after_step(
                        a.spec_fill_color()->0,
                        b.spec_fill_color()->0,
                        c.spec_fill_color()->0,
                        (k - 1) as nat,
                    );
                }
            },
            _ => {},
        }
    }
}

/// A static drawer shows the same picture on every frame: its colour states
/// and its image frame never change.
pub proof fn lemma_static_drawer_unchanged(ds: Seq<ComponentDrawer>, k: int)
    requires
        drawer_frames(ds),
        0 <= k < ds.len(),
        drawer_static(ds[0]),
    ensures
        ds[0] matches ComponentDrawer::Line(a) ==> (ds[k] matches ComponentDrawer::Line(b) && b.spec_color()
            == a.spec_color()),
        ds[0] matches ComponentDrawer::Text(a) ==> (ds[k] matches ComponentDrawer::Text(b) && b.spec_color()
            == a.spec_color()),
        ds[0] matches ComponentDrawer::Rect(a) ==> (ds[k] matches ComponentDrawer::Rect(b)
            && b.spec_border_color() == a.spec_border_color() && b.spec_fill_color() == a.spec_fill_color()),
        ds[0] matches ComponentDrawer::Image(a) ==> (ds[k] matches ComponentDrawer::Image(b) && b.spec_asset()
            == a.spec_asset() && b.spec_frame_num() == a.spec_frame_num()),
{
    lemma_drawer_frames(ds, k);
}

/// A text or line drawer built from an animated colour of `duration` frames
/// shows, after `k` frames, step `k % duration` of its loop: after a whole
/// loop it is back at the first keyframe colour.
pub proof fn lemma_colour_loop(c: ComponentValue, assets: Map<Seq<char>, UploadedAsset>, ds: Seq<ComponentDrawer>, k: int)
    requires
        drawer_built_from(c, ds[0], assets),
        drawer_frames(ds),
        0 <= k < ds.len(),
    ensures
        drawer_component(ds[k]) == c,
        c matches ComponentValue::Text(t) ==> (t.color matches ColorSpecValue::Animated(d, _) ==> (ds[k] matches ComponentDrawer::Text(x)
            && x.spec_color() matches ColorDrawState::Animated(y) && y.spec_step() == k % (d as int)
            && y.spec_steps().len() == d)),
        c matches ComponentValue::Line(l) ==> (l.color matches ColorSpecValue::Animated(d, _) ==> (ds[k] matches ComponentDrawer::Line(x)
            && x.spec_color() matches ColorDrawState::Animated(y) && y.spec_step() == k % (d as int)
            && y.spec_steps().len() == d)),
{
    lemma_drawer_frames(ds, k);
    match ds[0] {
        ComponentDrawer::Text(x) => {
            if x.spec_color() is Animated {
                let y = x.spec_color()->Animated_0;
                lemma_counter_after(0, y.spec_steps().len(), k as nat);
            }
        },
        ComponentDrawer::Line(x) => {
            if x.spec_color() is Animated {
                let y = x.spec_color()->Animated_0;
                lemma_counter_after(0, y.spec_steps().len(), k as nat);
            }
        },
        _ => {},
    }
}

/// An image drawer built from a stored animation shows, after `k` LED frames,
/// LED frame `k` modulo the loop length (frames times slowdown): each GIF frame
/// lasts the slowdown's number of LED frames and the animation loops. A still
/// image stays at its one frame.
pub proof fn lemma_gif_loop(c: ComponentValue, assets: Map<Seq<char>, UploadedAsset>, ds: Seq<ComponentDrawer>, k: int)
    requires
        drawer_built_from(c, ds[0], assets),
        drawer_frames(ds),
        0 <= k < ds.len(),
        c matches ComponentValue::Image(i) && asset_drawable(assets[i.source]),
    ensures
        ds[k] matches ComponentDrawer::Image(x) && ({
            let i = c->Image_0;
            &&& x.spec_asset() == assets[i.source]
            &&& (assets[i.source] is Image ==> x.spec_frame_num() == 0)
            &&& (assets[i.source] matches UploadedAsset::AnimatedImage(an) ==> x.spec_frame_num() == k
                % (gif_loop_frames(an@.len(), gif_slowdown(i.frame_slowdown)) as int))
        }),
{
    lemma_drawer_frames(ds, k);
    let i = c->Image_0;
    if assets[i.source] is AnimatedImage {
        let an = assets[i.source]->AnimatedImage_0;
        let n = an@.len();
        let s = gif_slowdown(i.frame_slowdown);
        assert(n * s >= 1) by (nonlinear_arith)
            requires
                n >= 1,
                s >= 1,
        ;
        lemma_counter_after(0, gif_loop_frames(n, s), k as nat);
    }
}

/// An animation of `n` frames drawn with slowdown `s` (with `n * s` within a
/// `usize`) loops every `n * s` LED frames: after `k` LED frames the drawer is
/// at LED frame `k % (n * s)` and shows GIF frame `(k / s) % n`, so each GIF
/// frame is shown for exactly `s` LED frames per loop, and the drawer is back
/// at its first LED frame exactly when `k` is a multiple of `n * s`.
pub proof fn lemma_gif_frame_shown(
    c: ComponentValue,
    assets: Map<Seq<char>, UploadedAsset>,
    ds: Seq<ComponentDrawer>,
    k: int,
)
    requires
        drawer_built_from(c, ds[0], assets),
        drawer_frames(ds),
        0 <= k < ds.len(),
        c matches ComponentValue::Image(i) && assets[i.source] matches UploadedAsset::AnimatedImage(an) && an@.len()
            > 0 && an@.len() * gif_slowdown(i.frame_slowdown) <= usize::MAX,
    ensures
        ({
            let i = c->Image_0;
            let n = assets[i.source]->AnimatedImage_0@.len() as int;
            let s = gif_slowdown(i.frame_slowdown) as int;
            &&& (i.frame_slowdown is None ==> s == 5)
            &&& (i.frame_slowdown matches Some(x) ==> (x == 0 ==> s == 5) && (x > 0 ==> s == x))
            &&& ds[k] matches ComponentDrawer::Image(x) && x.spec_frame_num() == k % (n * s)
                && x.spec_frame_num() / (s as nat) == (k / s) % n
                && (x.spec_frame_num() == 0 <==> k % (n * s) == 0)
        }),
{
    let i = c->Image_0;
    let an = assets[i.source]->AnimatedImage_0;
    let n = an@.len() as int;
    let s = gif_slowdown(i.frame_slowdown) as int;
    lemma_gif_loop(c, assets, ds, k);
    assert(gif_loop_frames(n as nat, s as nat) == n * s);
    vstd::arithmetic::div_mod::lemma_mod_breakdown(k, s, n);
    assert(s * n == n * s) by (nonlinear_arith);
    let m = k % s;
    assert(0 <= m < s) by {
        vstd::arithmetic::div_mod::lemma_mod_bound(k, s);
    }
    let t = (k / s) % n;
    assert((s * t + m) / s == t) by {
        vstd::arithmetic::div_mod::lemma_fundamental_div_mod_converse(s * t + m, s, t, m);
    }
}

} // verus!
