use ledzilla_server::config_parse::{
    default_fps, default_port, ConfigParser, GeneralConfig, LedConfigSection, ParsedConfig,
    PixelMapper, SimConfig,
};
use ledzilla_server::graphics_component::color::{AnimatedColorSpec, Color, StaticColorSpec};
use ledzilla_server::graphics_component::draw::color_state::ColorDrawState;
use ledzilla_server::graphics_component::draw::movement::ScrollingMovementConfig;
use ledzilla_server::graphics_component::draw::{DrawerCreationError, MovableComponentDrawer};
use ledzilla_server::graphics_component::font::{font_face, FontFace, FontName};
use ledzilla_server::graphics_component::{
    Alignment, ColorSpec, Component, Image, Line, MotionConfig, Text,
};
use ledzilla_server::renderer::{Command, CommandError, DisplayAction, RendererCore, Reply, State};
use ledzilla_server::server::{
    api_version, delete_outcome, display_info, display_switch_outcome, is_animated_flag,
    is_json_content_type, route, state_post_outcome, upload_outcome, upload_resize_request,
    HttpReply, Route,
};
use ledzilla_server::upload::{ResizeFilter, UploadManager};

fn red() -> ColorSpec {
    ColorSpec::Static(StaticColorSpec { color: Color::from_rgb(255, 0, 0) })
}

fn line(motion: Option<MotionConfig>) -> Component {
    Component::Line(Line { x1: 0, y1: 0, x2: 5, y2: 5, stroke_width: 1, color: red(), motion_config: motion })
}

fn text() -> Component {
    Component::Text(Text {
        x: 1,
        y: 2,
        font: FontName::mono_default_5x7,
        content: "hi".to_string(),
        color: red(),
        alignment: Alignment::Center,
        motion_config: None,
    })
}

fn missing_image() -> Component {
    Component::Image(Image { x: 0, y: 0, source: "nothing.png".to_string(), frame_slowdown: None, motion_config: None })
}

fn components_of(reply: Reply) -> Vec<Component> {
    match reply {
        Reply::Components(c) => c,
        other => panic!("unexpected reply {other:?}"),
    }
}

#[test]
fn set_then_get_gives_back_the_components() {
    let uploads = UploadManager::new();
    let mut r = RendererCore::new((64, 32));
    let list = vec![line(None), text()];
    let (reply, action) = r.handle_command(Command::SetComponents { components: list.clone() }, &uploads);
    assert!(matches!(reply, Reply::SetResult(Ok(()))));
    assert_eq!(action, DisplayAction::Keep);
    let (reply, action) = r.handle_command(Command::GetComponents, &uploads);
    assert_eq!(components_of(reply), list);
    assert_eq!(action, DisplayAction::Keep);
    assert_eq!(r.state(), State::Stopped);
}

#[test]
fn refused_set_keeps_the_components() {
    let uploads = UploadManager::new();
    let mut r = RendererCore::new((64, 32));
    let first = vec![text()];
    r.handle_command(Command::SetComponents { components: first.clone() }, &uploads);
    let (reply, _) = r.handle_command(Command::SetComponents { components: vec![line(None), missing_image()] }, &uploads);
    match reply {
        Reply::SetResult(Err(CommandError::UserInputError(m))) => {
            assert_eq!(m, "Could not find filename in database");
        }
        other => panic!("unexpected reply {other:?}"),
    }
    let (reply, _) = r.handle_command(Command::GetComponents, &uploads);
    assert_eq!(components_of(reply), first);
}

#[test]
fn too_fast_motion_is_refused() {
    let uploads = UploadManager::new();
    let mut r = RendererCore::new((64, 32));
    let fast = Some(MotionConfig { direction_degrees: 0, distance_per_tick: 10, periodicity: 5 });
    let (reply, _) = r.handle_command(Command::SetComponents { components: vec![line(fast)] }, &uploads);
    match reply {
        Reply::SetResult(Err(CommandError::UserInputError(m))) => {
            assert_eq!(m, "Unsupported when distance_per_tick > periodicity");
        }
        other => panic!("unexpected reply {other:?}"),
    }
}

#[test]
fn display_switches() {
    let uploads = UploadManager::new();
    let mut r = RendererCore::new((64, 32));
    let (reply, action) = r.handle_command(Command::Start, &uploads);
    assert!(matches!(reply, Reply::Done(true)));
    assert_eq!(action, DisplayAction::StartDisplay);
    let (_, action) = r.handle_command(Command::Start, &uploads);
    assert_eq!(action, DisplayAction::Keep);
    assert_eq!(r.state(), State::Rendering);
    let (reply, action) = r.handle_command(Command::Stop, &uploads);
    assert!(matches!(reply, Reply::Done(true)));
    assert_eq!(action, DisplayAction::StopDisplay);
    let (_, action) = r.handle_command(Command::Stop, &uploads);
    assert_eq!(action, DisplayAction::Keep);
    assert_eq!(r.state(), State::Stopped);
}

#[test]
fn advancing_frames_keeps_components() {
    let uploads = UploadManager::new();
    let mut r = RendererCore::new((64, 32));
    let list = vec![line(Some(MotionConfig { direction_degrees: 90, distance_per_tick: 1, periodicity: 64 })), text()];
    r.handle_command(Command::SetComponents { components: list.clone() }, &uploads);
    r.advance_frame();
    r.advance_frame();
    assert_eq!(r.drawers().len(), 2);
    let (reply, _) = r.handle_command(Command::GetComponents, &uploads);
    assert_eq!(components_of(reply), list);
}

#[test]
fn command_error_from_drawer_error() {
    match CommandError::from(DrawerCreationError::BadComponentSpec("bad".to_string())) {
        CommandError::UserInputError(m) => assert_eq!(m, "bad"),
        _ => panic!(),
    }
    match CommandError::from(DrawerCreationError::_GeneralError("oops".to_string())) {
        CommandError::InternalServerError(m) => assert_eq!(m, "oops"),
        _ => panic!(),
    }
}

#[test]
fn drawer_keeps_component_and_motion() {
    let uploads = UploadManager::new();
    let m = MotionConfig { direction_degrees: 45, distance_per_tick: 2, periodicity: 200 };
    let d = MovableComponentDrawer::from_component(line(Some(m)), &uploads, (64, 32)).unwrap();
    assert_eq!(d.get_cloned_component(), line(Some(m)));
    assert_eq!(d.motion_config(), Some(m));
    assert_eq!(d.canvas_size(), (64, 32));
    assert!(!d.is_static());
    let d = MovableComponentDrawer::from_component(text(), &uploads, (64, 32)).unwrap();
    assert!(d.is_static());
}

#[test]
fn animated_colour_loops_over_its_duration() {
    let spec = AnimatedColorSpec::new(
        4,
        vec![(0, Color::from_rgb(255, 0, 0)), (100, Color::from_rgb(0, 0, 255))],
    )
    .unwrap();
    let mut s = ColorDrawState::from(ColorSpec::Animated(spec));
    assert!(s.is_animated());
    let first = s.get();
    assert_eq!(first, Color::from_rgb(255, 0, 0));
    let mut seen = Vec::new();
    for _ in 0..4 {
        seen.push(s.get());
        s.advance_frame();
    }
    // After a whole loop the colour is the first one again.
    assert_eq!(s.get(), first);
    assert_eq!(seen[3], Color::from_rgb(0, 0, 255));
    let mut t = ColorDrawState::from(ColorSpec::Animated(
        AnimatedColorSpec::new(4, vec![(0, Color::from_rgb(255, 0, 0)), (100, Color::from_rgb(0, 0, 255))]).unwrap(),
    ));
    for _ in 0..3 {
        t.advance_frame();
    }
    assert_eq!(t.get(), Color::from_rgb(0, 0, 255));
    t.advance_frame();
    assert_eq!(t.get(), Color::from_rgb(255, 0, 0));
    assert_ne!(seen[1], first);
}

#[test]
fn static_colour_never_changes() {
    let mut s = ColorDrawState::from(red());
    assert!(!s.is_animated());
    s.advance_frame();
    assert_eq!(s.get(), Color::from_rgb(255, 0, 0));
}

#[test]
fn scrolling_config_validation() {
    let m = MotionConfig { direction_degrees: 180, distance_per_tick: 3, periodicity: 2 };
    let c = ScrollingMovementConfig::from_parsed_motion_config(&m, (64, 32), (10, 5), (1, 2));
    assert_eq!(c.validate().unwrap_err(), "Unsupported when distance_per_tick > periodicity");
    assert_eq!(c.canvas_size(), (64, 32));
    assert_eq!(c.rendered_component_size(), (10, 5));
    assert_eq!(c.initial_pos(), (1, 2));
    let m = MotionConfig { direction_degrees: 180, distance_per_tick: 2, periodicity: 2 };
    let c = ScrollingMovementConfig::from_parsed_motion_config(&m, (64, 32), (10, 5), (1, 2));
    assert!(c.validate().is_ok());
}

#[test]
fn routes() {
    assert_eq!(route("GET", "/"), Route::Index);
    assert_eq!(route("GET", "/api/info"), Route::Info);
    assert_eq!(route("GET", "/api/state?x=1"), Route::GetState);
    assert_eq!(route("POST", "/api/state"), Route::SetState);
    assert_eq!(route("POST", "/api/display/on"), Route::DisplayOn);
    assert_eq!(route("POST", "/api/display/off"), Route::DisplayOff);
    assert_eq!(route("GET", "/api/files"), Route::ListFiles);
    assert_eq!(route("PUT", "/api/files/logo.png"), Route::Upload("logo.png".to_string()));
    assert_eq!(route("DELETE", "/api/files/logo.png?now"), Route::DeleteFile("logo.png".to_string()));
    assert_eq!(route("PUT", "/api/files/a/b"), Route::NotFound);
    assert_eq!(route("GET", "/style.css"), Route::Asset);
    assert_eq!(route("POST", "/api/info"), Route::NotFound);
    assert_eq!(route("PATCH", "/api/state"), Route::NotFound);
}

#[test]
fn api_outcomes() {
    assert_eq!(state_post_outcome(Ok(())), (HttpReply::NoContent, true));
    let (r, on) = state_post_outcome(Err(CommandError::UserInputError("bad".to_string())));
    assert_eq!(r, HttpReply::BadRequest("bad".to_string()));
    assert_eq!(r.status_code(), 400);
    assert!(!on);
    let (r, on) = state_post_outcome(Err(CommandError::InternalServerError("boom".to_string())));
    assert_eq!(r.status_code(), 500);
    assert!(!on);
    assert_eq!(upload_outcome(true, "/api/files/a.png"), HttpReply::NoContent);
    let r = upload_outcome(false, "/api/files/a.png");
    assert_eq!(r, HttpReply::Created("Created /api/files/a.png".to_string()));
    assert_eq!(r.status_code(), 201);
    assert_eq!(delete_outcome(true).status_code(), 204);
    assert_eq!(delete_outcome(false), HttpReply::NotFound);
    assert_eq!(delete_outcome(false).status_code(), 404);
    assert_eq!(display_switch_outcome(true), HttpReply::NoContent);
    assert_eq!(display_switch_outcome(false).status_code(), 500);
}

#[test]
fn upload_fields() {
    assert!(is_animated_flag("true"));
    assert!(is_animated_flag("  TRUE \n"));
    assert!(is_animated_flag("True"));
    assert!(!is_animated_flag("false"));
    assert!(!is_animated_flag("yes"));
    assert!(!is_animated_flag(""));
    assert_eq!(upload_resize_request(None, None, None).unwrap(), None);
    let o = upload_resize_request(Some(6), None, None).unwrap().unwrap();
    assert_eq!((o.width, o.height, o.filter), (Some(6), None, ResizeFilter::Triangle));
    let o = upload_resize_request(Some(6), Some(4), Some("Bicubic")).unwrap().unwrap();
    assert_eq!((o.width, o.height, o.filter), (Some(6), Some(4), ResizeFilter::CatmullRom));
    assert!(upload_resize_request(Some(6), None, Some("sinc")).is_err());
    // Without a size the filter is not used, so any name will do.
    assert_eq!(upload_resize_request(None, None, Some("sinc")).unwrap(), None);
}

#[test]
fn json_header() {
    assert!(is_json_content_type(Some("application/json")));
    assert!(is_json_content_type(Some("application/json; charset=utf-8")));
    assert!(!is_json_content_type(Some("text/plain")));
    assert!(!is_json_content_type(None));
}

#[test]
fn info_reports_size_version_and_fonts() {
    let i = display_info((256, 64));
    assert_eq!((i.width, i.height), (256, 64));
    assert_eq!(i.api_version, "0.6.4");
    assert_eq!(api_version(), "0.6.4");
    assert!(i.available_fonts.contains(&"mono_default_5x7"));
    assert_eq!(i.available_fonts.len(), 83);
}

fn sample_config(mappers: Option<Vec<String>>) -> ParsedConfig {
    ParsedConfig {
        general_config: GeneralConfig { use_sim: true, canvas_width: 256, canvas_height: 64, server_port: default_port() },
        led_config: LedConfigSection {
            rows: 32,
            cols: 64,
            chain_length: Some(4),
            num_chains: None,
            pwm_bits: None,
            pwm_dither_bits: Some(1),
            pwm_lsb_ns: None,
            gpio_slowdown: Some(2),
            pixel_mappers: mappers,
            brightness: None,
            refresh_rate: default_fps(),
        },
        sim_config: SimConfig { width: 256, height: 64, scaling_factor: 4, target_fps: default_fps() },
    }
}

#[test]
fn config_defaults_and_sections() {
    assert_eq!(default_port(), 8080);
    assert_eq!(default_fps(), 75);
    let p = ConfigParser::new(sample_config(None));
    let g = p.get_general_config();
    assert!(g.use_sim);
    assert_eq!((g.canvas_width, g.canvas_height, g.server_port), (256, 64, 8080));
    let s = p.get_sim_config();
    assert_eq!((s.width, s.height, s.scaling_factor, s.target_fps), (256, 64, 4, 75));
    let l = p.get_led_config().unwrap();
    assert_eq!((l.rows, l.cols, l.refresh_rate), (32, 64, 75));
    assert_eq!((l.chain_length, l.parallel, l.pwm_bits, l.pwm_lsb_nanoseconds), (4, 1, 11, 130));
    assert_eq!((l.dither_bits, l.slowdown, l.led_brightness), (1, Some(2), 100));
    assert!(l.pixelmapper.is_empty());
    let c = p.get_ledzilla_config("0.0.0.0".to_string(), "www".to_string());
    assert_eq!((c.ip.as_str(), c.port, c.content_root.as_str(), c.canvas_size), ("0.0.0.0", 8080, "www", (256, 64)));
}

#[test]
fn config_pixel_mappers() {
    let p = ConfigParser::new(sample_config(Some(vec!["Mirror:H".to_string(), "Rotate:450".to_string(), "U-mapper".to_string()])));
    let l = p.get_led_config().unwrap();
    assert_eq!(l.pixelmapper, vec![PixelMapper::Mirror(true), PixelMapper::Rotate(90), PixelMapper::UMapper]);
    let p = ConfigParser::new(sample_config(Some(vec!["ChainLink".to_string(), "Rotate:45".to_string(), "Nope".to_string()])));
    assert_eq!(
        p.get_led_config().unwrap_err(),
        "'45' is not valid. Rotation needs to be a multiple of 90 degrees"
    );
    let p = ConfigParser::new(sample_config(Some(vec!["Mirror:v".to_string(), "Rotate:+180".to_string(), "ChainLink".to_string()])));
    assert_eq!(
        p.get_led_config().unwrap().pixelmapper,
        vec![PixelMapper::Mirror(false), PixelMapper::Rotate(180), PixelMapper::ChainLink]
    );
    let huge = format!("Rotate:{}", usize::MAX / 90 * 90);
    let p = ConfigParser::new(sample_config(Some(vec![huge])));
    assert_eq!(p.get_led_config().unwrap_err(), "Rotation angle is too large");
    let p = ConfigParser::new(sample_config(Some(vec!["Nope".to_string()])));
    assert_eq!(p.get_led_config().unwrap_err(), "'Nope' is not a valid Pixel mapping.");
    let p = ConfigParser::new(sample_config(Some(vec!["Rotate:x".to_string()])));
    assert_eq!(p.get_led_config().unwrap_err(), "Rotation angle is missing or invalid");
    let p = ConfigParser::new(sample_config(Some(vec!["Mirror:Q".to_string()])));
    assert_eq!(p.get_led_config().unwrap_err(), "'Q' is not valid. Mirror parameter should be either 'V' or 'H'");
}

#[test]
fn font_faces() {
    assert_eq!(font_face(FontName::mono_default_5x7), FontFace::Mono5x7);
    assert_eq!(font_face(FontName::mono_default_6x13_bold), FontFace::Mono6x13Bold);
    assert_eq!(font_face(FontName::lucida_serif_9), FontFace::U8g2LubR08Tf);
    assert_eq!(font_face(FontName::sirclive_7), FontFace::U8g2SircliveTr);
}

#[test]
fn periodicity_zero_is_refused() {
    let uploads = UploadManager::new();
    let still = Some(MotionConfig { direction_degrees: 0, distance_per_tick: 0, periodicity: 0 });
    match MovableComponentDrawer::from_component(line(still), &uploads, (64, 32)) {
        Err(DrawerCreationError::BadComponentSpec(m)) => assert_eq!(m, "Unsupported when periodicity is 0"),
        _ => panic!(),
    }
}

#[test]
fn undrawable_components_are_refused_as_bad_input() {
    let uploads = UploadManager::new();
    let mut r = RendererCore::new((64, 32));
    let short = ColorSpec::Animated(
        AnimatedColorSpec::new(1, vec![(0, Color::from_rgb(1, 1, 1)), (100, Color::from_rgb(2, 2, 2))]).unwrap(),
    );
    let c = Component::Line(Line { x1: 0, y1: 0, x2: 1, y2: 1, stroke_width: 1, color: short, motion_config: None });
    let (reply, action) = r.handle_command_checked(Command::SetComponents { components: vec![c] }, &uploads);
    match reply {
        Reply::SetResult(Err(CommandError::UserInputError(m))) => assert_eq!(m, "Component cannot be drawn"),
        other => panic!("unexpected reply {other:?}"),
    }
    assert_eq!(action, DisplayAction::Keep);
    let (reply, _) = r.handle_command_checked(Command::SetComponents { components: vec![text()] }, &uploads);
    assert!(matches!(reply, Reply::SetResult(Ok(()))));
}
