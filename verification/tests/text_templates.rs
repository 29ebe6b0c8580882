use chrono::TimeZone;
use ledzilla_server::graphics_component::text_string::{
    make_string_from_template, TextStringTemplate, TextTemplateError, TextTemplatePart,
};

fn get_test_time() -> chrono::DateTime<chrono::Local> {
    chrono::Local
        .from_local_datetime(&chrono::NaiveDateTime::default())
        .unwrap()
}

/// Formats the test time with a strftime format, as the renderer formats the clock.
fn format_test_time(format: &str) -> String {
    get_test_time().format(format).to_string()
}

#[test]
fn parse_plain_string() {
    let test_string: String = "Hello world".into();

    let result = TextStringTemplate::from_str(&test_string);
    assert!(result.is_ok());
    let template = result.unwrap();
    assert_eq!(*template.original(), test_string);

    assert_eq!(template.parts().len(), 1);
    let TextTemplatePart::Str(s) = &template.parts()[0] else {
        panic!()
    };

    assert_eq!(s, "Hello world");
}

#[test]
fn parse_time_string() {
    let test_string: String = "${TIME %Y-%m-%d %H:%M:%S}".into();

    let result = TextStringTemplate::from_str(&test_string);
    assert!(result.is_ok());
    let template = result.unwrap();
    assert_eq!(*template.original(), test_string);

    assert_eq!(template.parts().len(), 1);
    assert!(matches!(template.parts()[0], TextTemplatePart::Time(_)));

    assert_eq!(
        make_string_from_template(&template, format_test_time),
        "1970-01-01 00:00:00"
    );
}

#[test]
fn parse_invalid_strftime_string() {
    let test_string: String = "${TIME %o%O%`}".into();

    let result = TextStringTemplate::from_str(&test_string);
    assert!(result.is_err());
}

#[test]
fn parse_time_string_plus_text_with_escaped_dollar() {
    let test_string: String = "uuuu${TIME %Y-%m-%d %H:%M:%S}  asdf }{}$$ q".into();

    let result = TextStringTemplate::from_str(&test_string);
    assert!(result.is_ok());
    let template = result.unwrap();
    assert_eq!(*template.original(), test_string);

    assert_eq!(template.parts().len(), 3);
    let TextTemplatePart::Str(s) = &template.parts()[0] else {
        panic!()
    };
    assert_eq!(s, "uuuu");
    assert!(matches!(template.parts()[1], TextTemplatePart::Time(_)));
    let TextTemplatePart::Str(s) = &template.parts()[2] else {
        panic!()
    };
    assert_eq!(s, "  asdf }{}$ q");

    assert_eq!(
        make_string_from_template(&template, format_test_time),
        "uuuu1970-01-01 00:00:00  asdf }{}$ q"
    );
}

#[test]
fn parse_empty_string() {
    let test_string: String = "".into();

    let result = TextStringTemplate::from_str(&test_string);
    assert!(result.is_ok());
    let template = result.unwrap();
    assert_eq!(*template.original(), test_string);

    assert_eq!(make_string_from_template(&template, format_test_time), "");
}

#[test]
fn template_errors_tell_their_kind() {
    assert_eq!(TextStringTemplate::from_str("a $ b").unwrap_err(), TextTemplateError::Syntax);
    assert_eq!(TextStringTemplate::from_str("${TIME %H").unwrap_err(), TextTemplateError::Syntax);
    assert_eq!(TextStringTemplate::from_str("${DATE x}").unwrap_err(), TextTemplateError::Syntax);
    assert_eq!(
        TextStringTemplate::from_str("x ${TIME %Q}").unwrap_err(),
        TextTemplateError::InvalidTimeFormat
    );
}

#[test]
fn template_shows_its_original_text() {
    let t = TextStringTemplate::from_str("a$$b${TIME %H}c").unwrap();
    assert_eq!(t.to_string(), "a$$b${TIME %H}c");
}

#[test]
fn each_time_part_is_asked_in_order() {
    let t = TextStringTemplate::from_str("${TIME %H}-${TIME %M}!").unwrap();
    let out = make_string_from_template(&t, |f: &str| format!("<{f}>"));
    assert_eq!(out, "<%H>-<%M>!");
}
