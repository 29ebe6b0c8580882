use ledzilla_server::graphics_component::color::{
    mk_gradient, AnimatedColorSpec, Color, GradientError, StaticColorSpec,
};
use ledzilla_server::graphics_component::font::FontName;
use ledzilla_server::graphics_component::{
    Alignment, ColorSpec, Component, Image, Line, MotionConfig, Rectangle, Text,
};
use serde_json::Value;

fn mk_static_colorspec(r: u8, g: u8, b: u8) -> ColorSpec {
    ColorSpec::Static(StaticColorSpec {
        color: Color::from_rgb(r, g, b),
    })
}

fn mk_animated_colorspec(duration: usize, keyframes: Vec<(u8, Color)>) -> ColorSpec {
    ColorSpec::Animated(AnimatedColorSpec::new(duration, keyframes).unwrap())
}

fn field<'a>(v: &'a Value, name: &str) -> Result<&'a Value, String> {
    v.get(name).ok_or(format!("missing field {name}"))
}

fn int_field(v: &Value, name: &str) -> Result<i64, String> {
    field(v, name)?.as_i64().ok_or(format!("{name} is not an integer"))
}

fn str_field<'a>(v: &'a Value, name: &str) -> Result<&'a str, String> {
    field(v, name)?.as_str().ok_or(format!("{name} is not a string"))
}

/// Reads a colour description the way the server's API accepts it.
fn color_spec_from_value(v: &Value) -> Result<ColorSpec, String> {
    match str_field(v, "type")? {
        "static" => Ok(ColorSpec::Static(StaticColorSpec {
            color: Color::from_str(str_field(v, "color")?)?,
        })),
        "animated" => {
            let duration = int_field(v, "duration")? as usize;
            let list = field(v, "keyframes")?.as_array().ok_or("keyframes is not a list")?;
            let mut keyframes = Vec::new();
            for pair in list {
                let pair = pair.as_array().ok_or("keyframe is not a pair")?;
                if pair.len() != 2 {
                    return Err("keyframe is not a pair".to_string());
                }
                let key = pair[0].as_u64().ok_or("key is not a number")?;
                let key = u8::try_from(key).map_err(|e| e.to_string())?;
                let color = Color::from_str(pair[1].as_str().ok_or("colour is not a string")?)?;
                keyframes.push((key, color));
            }
            Ok(ColorSpec::Animated(AnimatedColorSpec::new(duration, keyframes)?))
        }
        other => Err(format!("unknown colour type {other}")),
    }
}

fn color_spec_from_json(text: &str) -> Result<ColorSpec, String> {
    let v: Value = serde_json::from_str(text).map_err(|e| e.to_string())?;
    color_spec_from_value(&v)
}

fn motion_from_value(v: &Value) -> Result<Option<MotionConfig>, String> {
    match v.get("motion_config") {
        None => Ok(None),
        Some(m) => Ok(Some(MotionConfig {
            direction_degrees: int_field(m, "direction_degrees")? as u16,
            distance_per_tick: int_field(m, "distance_per_tick")? as u32,
            periodicity: int_field(m, "periodicity")? as u32,
        })),
    }
}

/// Reads a component description the way the server's API accepts it.
fn component_from_json(text: &str) -> Result<Component, String> {
    let v: Value = serde_json::from_str(text).map_err(|e| e.to_string())?;
    match str_field(&v, "type")? {
        "text" => Ok(Component::Text(Text {
            x: int_field(&v, "x")? as i32,
            y: int_field(&v, "y")? as i32,
            font: FontName::from_name(str_field(&v, "font")?).ok_or("unknown font")?,
            content: str_field(&v, "content")?.to_string(),
            color: color_spec_from_value(field(&v, "color")?)?,
            alignment: match str_field(&v, "alignment")? {
                "Left" => Alignment::Left,
                "Center" => Alignment::Center,
                "Right" => Alignment::Right,
                _ => return Err("unknown alignment".to_string()),
            },
            motion_config: motion_from_value(&v)?,
        })),
        "image" => Ok(Component::Image(Image {
            x: int_field(&v, "x")? as i32,
            y: int_field(&v, "y")? as i32,
            source: str_field(&v, "source")?.to_string(),
            frame_slowdown: match v.get("frame_slowdown") {
                Some(f) => Some(f.as_u64().ok_or("frame_slowdown is not a number")? as usize),
                None => None,
            },
            motion_config: motion_from_value(&v)?,
        })),
        "line" => Ok(Component::Line(Line {
            x1: int_field(&v, "x1")? as i32,
            y1: int_field(&v, "y1")? as i32,
            x2: int_field(&v, "x2")? as i32,
            y2: int_field(&v, "y2")? as i32,
            stroke_width: int_field(&v, "stroke_width")? as u32,
            color: color_spec_from_value(field(&v, "color")?)?,
            motion_config: motion_from_value(&v)?,
        })),
        "rectangle" => Ok(Component::Rectangle(Rectangle {
            x: int_field(&v, "x")? as i32,
            y: int_field(&v, "y")? as i32,
            width: int_field(&v, "width")? as u32,
            height: int_field(&v, "height")? as u32,
            border_color: color_spec_from_value(field(&v, "border_color")?)?,
            border_width: int_field(&v, "border_width")? as u32,
            fill_color: match v.get("fill_color") {
                Some(c) => Some(color_spec_from_value(c)?),
                None => None,
            },
            motion_config: motion_from_value(&v)?,
        })),
        other => Err(format!("unknown component type {other}")),
    }
}

/// Writes a colour description as the API shows it.
fn color_spec_to_value(c: &ColorSpec) -> Value {
    match c {
        ColorSpec::Static(s) => json_object(vec![
            ("type", Value::from("static")),
            ("color", Value::from(s.color.to_hex_string())),
        ]),
        ColorSpec::Animated(a) => {
            let keyframes: Vec<Value> = a
                .keyframes()
                .iter()
                .map(|(k, c)| Value::Array(vec![Value::from(*k), Value::from(c.to_hex_string())]))
                .collect();
            json_object(vec![
                ("type", Value::from("animated")),
                ("duration", Value::from(a.duration())),
                ("keyframes", Value::Array(keyframes)),
            ])
        }
    }
}

fn json_object(fields: Vec<(&str, Value)>) -> Value {
    let mut m = serde_json::Map::new();
    for (k, v) in fields {
        m.insert(k.to_string(), v);
    }
    Value::Object(m)
}

fn motion_to_fields(m: &Option<MotionConfig>, fields: &mut Vec<(&'static str, Value)>) {
    if let Some(m) = m {
        fields.push((
            "motion_config",
            json_object(vec![
                ("direction_degrees", Value::from(m.direction_degrees)),
                ("distance_per_tick", Value::from(m.distance_per_tick)),
                ("periodicity", Value::from(m.periodicity)),
            ]),
        ));
    }
}

/// Writes a component description as the API shows it, leaving out what is not set.
fn component_to_json(c: &Component) -> String {
    let mut fields: Vec<(&'static str, Value)> = Vec::new();
    match c {
        Component::Text(t) => {
            fields.push(("type", Value::from("text")));
            fields.push(("x", Value::from(t.x)));
            fields.push(("y", Value::from(t.y)));
            fields.push(("font", Value::from(t.font.name())));
            fields.push(("content", Value::from(t.content.clone())));
            fields.push(("color", color_spec_to_value(&t.color)));
            fields.push((
                "alignment",
                Value::from(match t.alignment {
                    Alignment::Left => "Left",
                    Alignment::Center => "Center",
                    Alignment::Right => "Right",
                }),
            ));
            motion_to_fields(&t.motion_config, &mut fields);
        }
        Component::Image(i) => {
            fields.push(("type", Value::from("image")));
            fields.push(("x", Value::from(i.x)));
            fields.push(("y", Value::from(i.y)));
            fields.push(("source", Value::from(i.source.clone())));
            if let Some(f) = i.frame_slowdown {
                fields.push(("frame_slowdown", Value::from(f)));
            }
            motion_to_fields(&i.motion_config, &mut fields);
        }
        Component::Line(l) => {
            fields.push(("type", Value::from("line")));
            fields.push(("x1", Value::from(l.x1)));
            fields.push(("y1", Value::from(l.y1)));
            fields.push(("x2", Value::from(l.x2)));
            fields.push(("y2", Value::from(l.y2)));
            fields.push(("stroke_width", Value::from(l.stroke_width)));
            fields.push(("color", color_spec_to_value(&l.color)));
            motion_to_fields(&l.motion_config, &mut fields);
        }
        Component::Rectangle(r) => {
            fields.push(("type", Value::from("rectangle")));
            fields.push(("x", Value::from(r.x)));
            fields.push(("y", Value::from(r.y)));
            fields.push(("width", Value::from(r.width)));
            fields.push(("height", Value::from(r.height)));
            fields.push(("border_color", color_spec_to_value(&r.border_color)));
            fields.push(("border_width", Value::from(r.border_width)));
            if let Some(f) = &r.fill_color {
                fields.push(("fill_color", color_spec_to_value(f)));
            }
            motion_to_fields(&r.motion_config, &mut fields);
        }
    }
    json_object(fields).to_string()
}

fn test_deserialization(as_json: &str, as_rust: &Component) {
    let deserialized = component_from_json(as_json).unwrap();
    assert_eq!(*as_rust, deserialized);
}

fn test_ser_des(as_rust: &Component) {
    println!("Rust structure: {:?}", as_rust);
    let serialized = component_to_json(as_rust);
    println!("--> As Json: {}", serialized);
    assert!(!serialized.contains("null"));
    let deserialized_again = component_from_json(&serialized).unwrap();
    assert_eq!(*as_rust, deserialized_again);
}

fn test_color_ser_des(as_rust: &ColorSpec) {
    let serialized = color_spec_to_value(as_rust).to_string();
    assert!(!serialized.contains("null"));
    assert_eq!(*as_rust, color_spec_from_json(&serialized).unwrap());
}

fn assert_failed_color_deserialization(as_json: &str) {
    let result = color_spec_from_json(as_json);
    assert!(result.is_err());
}

#[test]
fn text() {
    let as_json = r##"{
        "type": "text",
        "x": 1,
        "y": 2,
        "content": "Hello World",
        "font": "mono_default_5x7",
        "color": {
            "type": "static",
            "color": "#FF0001"
        },
        "alignment": "Left"
    }"##;

    let as_rust = Component::Text(Text {
        x: 1,
        y: 2,
        content: "Hello World".to_string(),
        font: FontName::mono_default_5x7,
        color: mk_static_colorspec(255, 0, 1),
        alignment: Alignment::Left,
        motion_config: None,
    });

    test_deserialization(as_json, &as_rust);
    test_ser_des(&as_rust);
}

#[test]
fn image() {
    let as_json = r#"{
        "type": "image",
        "x": 1,
        "y": 2,
        "source": "logo.png"
    }"#;

    let as_rust = Component::Image(Image {
        x: 1,
        y: 2,
        source: String::from("logo.png"),
        frame_slowdown: None,
        motion_config: None,
    });

    test_deserialization(as_json, &as_rust);
    test_ser_des(&as_rust);
}

#[test]
fn line() {
    let as_json = r##"{
        "type": "line",
        "x1": 10,
        "y1": 2,
        "x2": 5,
        "y2": 8,
        "stroke_width": 1,
        "color": {
            "type": "static",
            "color": "#FF0001"
        }
    }"##;

    let as_rust = Component::Line(Line {
        x1: 10,
        y1: 2,
        x2: 5,
        y2: 8,
        stroke_width: 1,
        color: mk_static_colorspec(255, 0, 1),
        motion_config: None,
    });

    test_deserialization(as_json, &as_rust);
    test_ser_des(&as_rust);
}

#[test]
fn line_rgb_css_spec() {
    let as_json = r##"{
        "type": "line",
        "x1": 10,
        "y1": 2,
        "x2": 5,
        "y2": 8,
        "stroke_width": 1,
        "color": {
            "type": "static",
            "color": "rgb(255 0 1)"
        }
    }"##;

    let as_rust = Component::Line(Line {
        x1: 10,
        y1: 2,
        x2: 5,
        y2: 8,
        stroke_width: 1,
        color: mk_static_colorspec(255, 0, 1),
        motion_config: None,
    });

    test_deserialization(as_json, &as_rust);
    test_ser_des(&as_rust);
}

#[test]
fn color_static() {
    let as_json = r##"{
            "type": "static",
            "color": "rgb(255 0 1)"
        }
    "##;

    let as_rust = mk_static_colorspec(255, 0, 1);

    assert_eq!(as_rust, color_spec_from_json(as_json).unwrap());
    test_color_ser_des(&as_rust);
}

#[test]
fn color_animated() {
    let as_json = r##"{
        "type": "animated",
        "duration": 30,
        "keyframes": [
            [0, "#FF0000"],
            [20, "rgb(0, 120, 0)"],
            [90, "#00F"],
            [100, "#FF0000"]
        ]
    }"##;

    let as_rust = mk_animated_colorspec(
        30,
        vec![
            (0, Color::from_rgb(255, 0, 0)),
            (20, Color::from_rgb(0, 120, 0)),
            (90, Color::from_rgb(0, 0, 255)),
            (100, Color::from_rgb(255, 0, 0)),
        ],
    );

    assert_eq!(as_rust, color_spec_from_json(as_json).unwrap());
    test_color_ser_des(&as_rust);
}

#[test]
fn color_animated_invalid_keyframe_range() {
    assert_failed_color_deserialization(
        r##"{
        "type": "animated",
        "duration": 30,
        "keyframes": [
            [0, "#FF0000"],
            [20, "rgb(0, 120, 0)"],
            [90, "#00F"],
            [100, "#FF0000"],
            [102, "#FF0000"]
        ]
        }"##,
    );
}

#[test]
fn color_animated_invalid_missing_endpoints() {
    assert_failed_color_deserialization(
        r##"{
        "type": "animated",
        "duration": 30,
        "keyframes": [
            [0, "#FF0000"],
            [20, "rgb(0, 120, 0)"],
            [90, "#00F"],
        ]
        }"##,
    );
    assert_failed_color_deserialization(
        r##"{
        "type": "animated",
        "duration": 30,
        "keyframes": [
            [20, "rgb(0, 120, 0)"],
            [90, "#00F"],
            [100, "#FF0000"],
        ]
        }"##,
    );
}

#[test]
fn color_animated_invalid_keyframe_not_increasing() {
    assert_failed_color_deserialization(
        r##"{
        "type": "animated",
        "duration": 30,
        "keyframes": [
            [0, "#FF0000"],
            [90, "#00F"],
            [90, "rgb(0, 120, 0)"],
            [100, "#FF0000"],
        ]
        }"##,
    );
}

#[test]
fn scrolling_rect() {
    let as_json = r##"{
        "type": "rectangle",
        "x": 10,
        "y": 2,
        "width": 50,
        "height": 9,
        "border_color": {
            "type": "static",
            "color": "#A05500"
        },
        "border_width": 3,
        "fill_color": {
            "type": "static",
            "color": "ffa09e"
        },
        "motion_config": {
            "direction_degrees": 45,
            "distance_per_tick": 2,
            "periodicity": 200
        }
    }"##;

    let as_rust = Component::Rectangle(Rectangle {
        x: 10,
        y: 2,
        width: 50,
        height: 9,
        border_width: 3,
        border_color: mk_static_colorspec(160, 85, 0),
        fill_color: Some(mk_static_colorspec(255, 160, 158)),
        motion_config: Some(MotionConfig {
            direction_degrees: 45,
            distance_per_tick: 2,
            periodicity: 200,
        }),
    });

    test_deserialization(as_json, &as_rust);
    test_ser_des(&as_rust);
}

// The keyframe checks, each error with its own message, without the JSON layer.

#[test]
fn animated_keyframe_out_of_range_message() {
    let r = AnimatedColorSpec::new(30, vec![(0, Color::from_rgb(0, 0, 0)), (101, Color::from_rgb(1, 1, 1))]);
    assert_eq!(r.unwrap_err(), "Keyframe not in range [0,100]");
}

#[test]
fn animated_keyframe_not_increasing_message() {
    let r = AnimatedColorSpec::new(
        30,
        vec![(0, Color::from_rgb(0, 0, 0)), (50, Color::from_rgb(0, 0, 0)), (50, Color::from_rgb(0, 0, 0)), (100, Color::from_rgb(0, 0, 0))],
    );
    assert_eq!(r.unwrap_err(), "Keyframes must be strictly increasing");
}

#[test]
fn animated_missing_end_messages() {
    let r = AnimatedColorSpec::new(30, vec![(0, Color::from_rgb(0, 0, 0)), (50, Color::from_rgb(0, 0, 0))]);
    assert_eq!(r.unwrap_err(), "100 not found as a keyframe");
    let r = AnimatedColorSpec::new(30, vec![(50, Color::from_rgb(0, 0, 0)), (100, Color::from_rgb(0, 0, 0))]);
    assert_eq!(r.unwrap_err(), "0 not found as a keyframe");
    let r = AnimatedColorSpec::new(30, vec![]);
    assert_eq!(r.unwrap_err(), "100 not found as a keyframe");
}

#[test]
fn animated_accepts_and_keeps_fields() {
    let kf = vec![(0, Color::from_rgb(1, 2, 3)), (100, Color::from_rgb(4, 5, 6))];
    let a = AnimatedColorSpec::new(7, kf.clone()).unwrap();
    assert_eq!(a.duration(), 7);
    assert_eq!(*a.keyframes(), kf);
}

#[test]
fn color_text_round_trip() {
    let c = Color::from_rgb(0xA0, 0x55, 0x0F);
    assert_eq!(c.to_hex_string(), "#A0550F");
    assert_eq!(Color::from_str(&c.to_hex_string()).unwrap(), c);
}

#[test]
fn color_css_forms() {
    assert_eq!(Color::from_str("#00F").unwrap(), Color::from_rgb(0, 0, 255));
    assert_eq!(Color::from_str("rgb(0, 120, 0)").unwrap(), Color::from_rgb(0, 120, 0));
    assert_eq!(Color::from_str("ffa09e").unwrap(), Color::from_rgb(255, 160, 158));
    assert!(Color::from_str("not a colour").is_err());
}

#[test]
fn component_motion_config() {
    let m = MotionConfig { direction_degrees: 90, distance_per_tick: 1, periodicity: 64 };
    let c = Component::Line(Line {
        x1: 0,
        y1: 0,
        x2: 1,
        y2: 1,
        stroke_width: 1,
        color: mk_static_colorspec(1, 2, 3),
        motion_config: Some(m),
    });
    assert_eq!(c.get_motion_config(), Some(&m));
    let c = Component::Image(Image { x: 0, y: 0, source: "a".to_string(), frame_slowdown: None, motion_config: None });
    assert_eq!(c.get_motion_config(), None);
}

#[test]
fn gradient_ends_at_the_end_keyframes() {
    let kf = vec![(0, Color::from_rgb(255, 0, 0)), (50, Color::from_rgb(0, 255, 0)), (100, Color::from_rgb(0, 0, 255))];
    let g = mk_gradient(&kf, 11).unwrap();
    assert_eq!(g.len(), 11);
    assert_eq!(g[0], Color::from_rgb(255, 0, 0));
    assert_eq!(g[10], Color::from_rgb(0, 0, 255));
    // The builder refuses positions that go backwards.
    let bad = vec![(0, Color::from_rgb(0, 0, 0)), (60, Color::from_rgb(0, 0, 0)), (40, Color::from_rgb(0, 0, 0)), (100, Color::from_rgb(0, 0, 0))];
    assert!(matches!(mk_gradient(&bad, 5), Err(GradientError::Builder(_))));
    // A repeated first position makes the builder drop the first stop, so the
    // gradient does not start on the first keyframe colour.
    let doubled = vec![(0, Color::from_rgb(255, 0, 0)), (0, Color::from_rgb(0, 0, 255)), (100, Color::from_rgb(0, 255, 0))];
    assert!(matches!(mk_gradient(&doubled, 3), Err(GradientError::EndNotKept)));
}
