//! The graphics components a client places on the display.

use vstd::prelude::*;

pub use color::ColorSpec;
pub use color::ColorSpecValue;
pub use font::Alignment;
pub use motion::MotionConfig;

pub mod color;
pub mod draw;
pub mod font;
pub mod motion;
pub mod text_string;

verus! {

/// The components shown on the display, drawn in order.
pub type ComponentList = Vec<Component>;

/// The font of a text component.
pub type Font = font::FontName;

/// A line of text.
#[derive(PartialEq, Debug, Clone)]
pub struct Text {
    pub x: i32,
    pub y: i32,
    pub font: Font,
    pub content: String,
    pub color: ColorSpec,
    pub alignment: Alignment,
    pub motion_config: Option<MotionConfig>,
}

/// An uploaded image or GIF, by file name.
#[derive(PartialEq, Debug, Clone)]
pub struct Image {
    pub x: i32,
    pub y: i32,
    pub source: String,
    pub frame_slowdown: Option<usize>,
    pub motion_config: Option<MotionConfig>,
}

/// A straight line between two points.
#[derive(PartialEq, Debug, Clone)]
pub struct Line {
    pub x1: i32,
    pub y1: i32,
    pub x2: i32,
    pub y2: i32,
    pub stroke_width: u32,
    pub color: ColorSpec,
    pub motion_config: Option<MotionConfig>,
}

/// A rectangle with a border and an optional fill; `x`, `y` is its top-left corner.
#[derive(PartialEq, Debug, Clone)]
pub struct Rectangle {
    pub x: i32,
    pub y: i32,
    pub width: u32,
    pub height: u32,
    pub border_color: ColorSpec,
    pub border_width: u32,
    pub fill_color: Option<ColorSpec>,
    pub motion_config: Option<MotionConfig>,
}

/// One graphics component.
#[derive(PartialEq, Debug, Clone)]
pub enum Component {
    Image(Image),
    Text(Text),
    Line(Line),
    Rectangle(Rectangle),
}

/// The value of a text component.
pub struct TextValue {
    pub x: i32,
    pub y: i32,
    pub font: Font,
    pub content: Seq<char>,
    pub color: ColorSpecValue,
    pub alignment: Alignment,
    pub motion_config: Option<MotionConfig>,
}

/// The value of an image component.
pub struct ImageValue {
    pub x: i32,
    pub y: i32,
    pub source: Seq<char>,
    pub frame_slowdown: Option<usize>,
    pub motion_config: Option<MotionConfig>,
}

/// The value of a line component.
pub struct LineValue {
    pub x1: i32,
    pub y1: i32,
    pub x2: i32,
    pub y2: i32,
    pub stroke_width: u32,
    pub color: ColorSpecValue,
    pub motion_config: Option<MotionConfig>,
}

/// The value of a rectangle component.
pub struct RectangleValue {
    pub x: i32,
    pub y: i32,
    pub width: u32,
    pub height: u32,
    pub border_color: ColorSpecValue,
    pub border_width: u32,
    pub fill_color: Option<ColorSpecValue>,
    pub motion_config: Option<MotionConfig>,
}

/// The value of a component.
pub enum ComponentValue {
    Image(ImageValue),
    Text(TextValue),
    Line(LineValue),
    Rectangle(RectangleValue),
}

impl View for Text {
    type V = TextValue;

    open spec fn view(&self) -> TextValue {
        TextValue {
            x: self.x,
            y: self.y,
            font: self.font,
            content: self.content@,
            color: self.color@,
            alignment: self.alignment,
            motion_config: self.motion_config,
        }
    }
}

impl View for Image {
    type V = ImageValue;

    open spec fn view(&self) -> ImageValue {
        ImageValue {
            x: self.x,
            y: self.y,
            source: self.source@,
            frame_slowdown: self.frame_slowdown,
            motion_config: self.motion_config,
        }
    }
}

impl View for Line {
    type V = LineValue;

    open spec fn view(&self) -> LineValue {
        LineValue {
            x1: self.x1,
            y1: self.y1,
            x2: self.x2,
            y2: self.y2,
            stroke_width: self.stroke_width,
            color: self.color@,
            motion_config: self.motion_config,
        }
    }
}

/// The value of an optional colour spec.
pub open spec fn option_color_value(c: Option<ColorSpec>) -> Option<ColorSpecValue> {
    match c {
        Some(c) => Some(c@),
        None => None,
    }
}

impl View for Rectangle {
    type V = RectangleValue;

    open spec fn view(&self) -> RectangleValue {
        RectangleValue {
            x: self.x,
            y: self.y,
            width: self.width,
            height: self.height,
            border_color: self.border_color@,
            border_width: self.border_width,
            fill_color: option_color_value(self.fill_color),
            motion_config: self.motion_config,
        }
    }
}

impl View for Component {
    type V = ComponentValue;

    open spec fn view(&self) -> ComponentValue {
        match self {
            Component::Image(c) => ComponentValue::Image(c@),
            Component::Text(c) => ComponentValue::Text(c@),
            Component::Line(c) => ComponentValue::Line(c@),
            Component::Rectangle(c) => ComponentValue::Rectangle(c@),
        }
    }
}

/// The values of a list of components.
pub open spec fn component_values(list: Seq<Component>) -> Seq<ComponentValue> {
    list.map_values(|c: Component| c@)
}

/// The scrolling configuration of a component value.
pub open spec fn motion_of(c: ComponentValue) -> Option<MotionConfig> {
    match c {
        ComponentValue::Image(c) => c.motion_config,
        ComponentValue::Text(c) => c.motion_config,
        ComponentValue::Line(c) => c.motion_config,
        ComponentValue::Rectangle(c) => c.motion_config,
    }
}

impl Text {
    /// A copy with the same value.
    pub fn duplicate(&self) -> (r: Self)
        ensures
            r@ == self@,
    {
        Text {
            x: self.x,
            y: self.y,
            font: self.font,
            content: self.content.clone(),
            color: self.color.duplicate(),
            alignment: self.alignment,
            motion_config: self.motion_config,
        }
    }
}

impl Image {
    /// A copy with the same value.
    pub fn duplicate(&self) -> (r: Self)
        ensures
            r@ == self@,
    {
        Image {
            x: self.x,
            y: self.y,
            source: self.source.clone(),
            frame_slowdown: self.frame_slowdown,
            motion_config: self.motion_config,
        }
    }
}

impl Line {
    /// A copy with the same value.
    pub fn duplicate(&self) -> (r: Self)
        ensures
            r@ == self@,
    {
        Line {
            x1: self.x1,
            y1: self.y1,
            x2: self.x2,
            y2: self.y2,
            stroke_width: self.stroke_width,
            color: self.color.duplicate(),
            motion_config: self.motion_config,
        }
    }
}

impl Rectangle {
    /// A copy with the same value.
    pub fn duplicate(&self) -> (r: Self)
        ensures
            r@ == self@,
    {
        let fill_color = match &self.fill_color {
            Some(c) => Some(c.duplicate()),
            None => None,
        };
        Rectangle {
            x: self.x,
            y: self.y,
            width: self.width,
            height: self.height,
            border_color: self.border_color.duplicate(),
            border_width: self.border_width,
            fill_color,
            motion_config: self.motion_config,
        }
    }
}

impl Component {
    /// The scrolling configuration, if the component scrolls.
    pub fn get_motion_config(&self) -> (m: Option<&MotionConfig>)
        ensures
            m matches Some(mc) ==> motion_of(self@) == Some(*mc),
            m is None <==> motion_of(self@) is None,
            self matches Component::Image(c) ==> (m is None <==> c.motion_config is None) && (m matches Some(
                mc,
            ) ==> c.motion_config == Some(*mc)),
            self matches Component::Text(c) ==> (m is None <==> c.motion_config is None) && (m matches Some(
                mc,
            ) ==> c.motion_config == Some(*mc)),
            self matches Component::Line(c) ==> (m is None <==> c.motion_config is None) && (m matches Some(
                mc,
            ) ==> c.motion_config == Some(*mc)),
            self matches Component::Rectangle(c) ==> (m is None <==> c.motion_config is None) && (m matches Some(
                mc,
            ) ==> c.motion_config == Some(*mc)),
    {
        match self {
            Component::Image(c) => c.motion_config.as_ref(),
            Component::Text(c) => c.motion_config.as_ref(),
            Component::Line(c) => c.motion_config.as_ref(),
            Component::Rectangle(c) => c.motion_config.as_ref(),
        }
    }

    /// A copy with the same value.
    pub fn duplicate(&self) -> (r: Self)
        ensures
            r@ == self@,
    {
        match self {
            Component::Image(c) => Component::Image(c.duplicate()),
            Component::Text(c) => Component::Text(c.duplicate()),
            Component::Line(c) => Component::Line(c.duplicate()),
            Component::Rectangle(c) => Component::Rectangle(c.duplicate()),
        }
    }
}

/// The scrolling reported for a component, and kept by its drawer, is the
/// component's own `motion_config`, whatever kind of component it is.
pub proof fn lemma_motion_is_own_field(c: Component)
    ensures
        c matches Component::Image(x) ==> motion_of(c@) == x.motion_config,
        c matches Component::Text(x) ==> motion_of(c@) == x.motion_config,
        c matches Component::Line(x) ==> motion_of(c@) == x.motion_config,
        c matches Component::Rectangle(x) ==> motion_of(c@) == x.motion_config,
{
}

} // verus!
