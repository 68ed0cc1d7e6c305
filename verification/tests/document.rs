use qtwallset::document::{
    colors_from_document, colors_from_json, colors_from_output, colors_to_json,
    descriptor_to_json, parse_colors, render_descriptor, scheme_from_json, scheme_to_json,
    WallpaperConfig,
};
use qtwallset::error::ErrorKind;
use qtwallset::json::{parse_json, Json};
use qtwallset::palette::{ColorScheme, Colors, ROLE_NAMES};

fn scheme_with(prefix: &str) -> ColorScheme {
    let mut colors = Vec::new();
    for index in 0..ROLE_NAMES.len() {
        colors.push(format!("#{}{:05}", prefix, index));
    }
    ColorScheme::from_values(colors).unwrap()
}

fn palette() -> Colors {
    Colors { dark: scheme_with("d"), light: scheme_with("e") }
}

fn scheme_text(prefix: &str, skipped: &str) -> String {
    let mut members = Vec::new();
    for (index, name) in ROLE_NAMES.iter().enumerate() {
        if *name != skipped {
            members.push(format!("\"{}\": \"#{}{:05}\"", name, prefix, index));
        }
    }
    format!("{{{}}}", members.join(", "))
}

fn palette_text() -> String {
    format!(
        "{{\"colors\": {{\"dark\": {}, \"light\": {}}}}}",
        scheme_text("d", ""),
        scheme_text("e", "")
    )
}

fn indented_scheme(prefix: &str) -> String {
    let mut lines = Vec::new();
    for (index, name) in ROLE_NAMES.iter().enumerate() {
        lines.push(format!("      \"{}\": \"#{}{:05}\"", name, prefix, index));
    }
    lines.join(",\n")
}

#[test]
fn reads_the_palette_that_the_generator_prints() {
    assert_eq!(parse_colors(&palette_text()), Ok(palette()));
}

#[test]
fn reads_each_color_under_the_name_of_its_role() {
    let colors = parse_colors(&palette_text()).unwrap();
    assert_eq!(colors.dark.color_named("background"), Some("#d00000"));
    assert_eq!(colors.dark.color_named("tertiary_fixed_dim"), Some("#d00048"));
    assert_eq!(colors.light.color_named("background"), Some("#e00000"));
    assert_eq!(colors.light.color_named("primary"), Some("#e00025"));
}

#[test]
fn reads_the_palette_whatever_the_order_of_the_members() {
    let mut members = Vec::new();
    for (index, name) in ROLE_NAMES.iter().enumerate().rev() {
        members.push(format!("\"{}\": \"#d{:05}\"", name, index));
    }
    let dark = format!("{{{}}}", members.join(", "));
    let text = format!(
        "{{\"colors\": {{\"light\": {}, \"dark\": {}}}, \"extra\": 1}}",
        scheme_text("e", ""),
        dark
    );
    assert_eq!(parse_colors(&text), Ok(palette()));
}

#[test]
fn ignores_members_that_no_role_is_named_after() {
    let dark = scheme_text("d", "");
    let dark = format!("{{\"unknown\": 3, {}", &dark[1..]);
    let text = format!(
        "{{\"colors\": {{\"dark\": {}, \"light\": {}}}}}",
        dark,
        scheme_text("e", "")
    );
    assert_eq!(parse_colors(&text), Ok(palette()));
}

#[test]
fn reads_the_palette_from_bytes() {
    assert_eq!(colors_from_output(palette_text().as_bytes()), Ok(palette()));
}

#[test]
fn reads_bytes_that_are_no_utf8_as_the_replacement_character() {
    let text = palette_text().replace("#d00000", "#d0000?");
    let mut bytes = text.into_bytes();
    let place = bytes.iter().position(|byte| *byte == b'?').unwrap();
    bytes[place] = 0xff;
    let colors = colors_from_output(&bytes).unwrap();
    assert_eq!(colors.dark.color(0), Some("#d0000\u{fffd}"));
    assert_eq!(colors.dark.color(1), Some("#d00001"));
}

#[test]
fn text_that_is_no_json_is_a_parse_failure() {
    let error = parse_colors("not json").unwrap_err();
    assert_eq!(error.kind, ErrorKind::ParseFailure);
    assert_eq!(
        error.message,
        "Failed to parse matugen output: expected ident at line 1 column 2"
    );
}

#[test]
fn empty_output_is_a_parse_failure() {
    let error = colors_from_output(b"").unwrap_err();
    assert_eq!(error.kind, ErrorKind::ParseFailure);
    assert_eq!(
        error.message,
        "Failed to parse matugen output: EOF while parsing a value at line 1 column 0"
    );
}

#[test]
fn a_document_without_colors_is_a_parse_failure() {
    let error = parse_colors("{\"palette\": {}}").unwrap_err();
    assert_eq!(error.kind, ErrorKind::ParseFailure);
    assert_eq!(
        error.message,
        "Failed to parse matugen output: missing or invalid field `colors`"
    );
}

#[test]
fn a_document_that_is_no_object_is_a_parse_failure() {
    let error = parse_colors("[1, 2]").unwrap_err();
    assert_eq!(error.kind, ErrorKind::ParseFailure);
    assert_eq!(
        error.message,
        "Failed to parse matugen output: missing or invalid field `colors`"
    );
}

#[test]
fn a_palette_without_a_scheme_is_a_parse_failure() {
    let text = format!("{{\"colors\": {{\"light\": {}}}}}", scheme_text("e", ""));
    let error = parse_colors(&text).unwrap_err();
    assert_eq!(error.kind, ErrorKind::ParseFailure);
    assert_eq!(
        error.message,
        "Failed to parse matugen output: missing or invalid field `colors.dark`"
    );
    let text = format!("{{\"colors\": {{\"dark\": {}}}}}", scheme_text("d", ""));
    let error = parse_colors(&text).unwrap_err();
    assert_eq!(
        error.message,
        "Failed to parse matugen output: missing or invalid field `colors.light`"
    );
}

#[test]
fn a_scheme_without_a_color_is_a_parse_failure() {
    let text = format!(
        "{{\"colors\": {{\"dark\": {}, \"light\": {}}}}}",
        scheme_text("d", ""),
        scheme_text("e", "outline")
    );
    let error = parse_colors(&text).unwrap_err();
    assert_eq!(error.kind, ErrorKind::ParseFailure);
    assert_eq!(
        error.message,
        "Failed to parse matugen output: missing or invalid field `colors.light.outline`"
    );
}

#[test]
fn the_first_missing_color_is_named() {
    let text = format!(
        "{{\"colors\": {{\"dark\": {{\"background\": \"#000000\"}}, \"light\": {{}}}}}}"
    );
    let error = parse_colors(&text).unwrap_err();
    assert_eq!(
        error.message,
        "Failed to parse matugen output: missing or invalid field `colors.dark.error`"
    );
}

#[test]
fn a_color_that_is_no_string_is_a_parse_failure() {
    let text = palette_text().replace("\"#d00002\"", "2");
    let error = parse_colors(&text).unwrap_err();
    assert_eq!(error.kind, ErrorKind::ParseFailure);
    assert_eq!(
        error.message,
        "Failed to parse matugen output: missing or invalid field `colors.dark.error_container`"
    );
}

#[test]
fn a_scheme_that_is_no_object_is_a_parse_failure() {
    let text = format!("{{\"colors\": {{\"dark\": [], \"light\": {}}}}}", scheme_text("e", ""));
    let error = parse_colors(&text).unwrap_err();
    assert_eq!(
        error.message,
        "Failed to parse matugen output: missing or invalid field `colors.dark.background`"
    );
}

#[test]
fn a_scheme_is_read_from_its_document() {
    let document = parse_json(&scheme_text("d", "")).unwrap();
    assert_eq!(scheme_from_json(&document), Ok(scheme_with("d")));
    let document = parse_json(&scheme_text("d", "scrim")).unwrap();
    assert_eq!(scheme_from_json(&document), Err("scrim".to_string()));
    assert_eq!(scheme_from_json(&Json::Null), Err("background".to_string()));
}

#[test]
fn a_palette_is_read_from_its_document() {
    let document = parse_json(&palette_text()).unwrap();
    assert_eq!(colors_from_json(&document), Ok(palette()));
    assert_eq!(colors_from_document(&document), Ok(palette()));
    assert_eq!(colors_from_json(&Json::Object(vec![])), Err("colors".to_string()));
    let error = colors_from_document(&Json::Object(vec![])).unwrap_err();
    assert_eq!(error.kind, ErrorKind::ParseFailure);
}

#[test]
fn the_document_of_a_scheme_lists_the_roles_in_order() {
    let document = scheme_to_json(&scheme_with("d"));
    let mut members = Vec::new();
    for (index, name) in ROLE_NAMES.iter().enumerate() {
        members.push((name.to_string(), Json::Text(format!("#d{:05}", index))));
    }
    assert_eq!(document, Json::Object(members));
}

#[test]
fn the_document_of_a_palette_holds_dark_before_light() {
    let document = colors_to_json(&palette());
    let expected = Json::Object(vec![
        ("dark".to_string(), scheme_to_json(&scheme_with("d"))),
        ("light".to_string(), scheme_to_json(&scheme_with("e"))),
    ]);
    assert_eq!(document, expected);
}

#[test]
fn the_document_of_a_descriptor_holds_the_path_before_the_palette() {
    let config = WallpaperConfig { file_path: "/w/sea.png".to_string(), colors: palette() };
    let document = descriptor_to_json(&config);
    let expected = Json::Object(vec![
        ("file_path".to_string(), Json::Text("/w/sea.png".to_string())),
        ("colors".to_string(), colors_to_json(&palette())),
    ]);
    assert_eq!(document, expected);
}

#[test]
fn the_descriptor_is_printed_as_indented_json() {
    let config = WallpaperConfig { file_path: "/w/sea.png".to_string(), colors: palette() };
    let expected = format!(
        "{{\n  \"file_path\": \"/w/sea.png\",\n  \"colors\": {{\n    \"dark\": {{\n{}\n    }},\n    \"light\": {{\n{}\n    }}\n  }}\n}}",
        indented_scheme("d"),
        indented_scheme("e")
    );
    assert_eq!(render_descriptor(&config), Ok(expected));
}

#[test]
fn the_descriptor_begins_with_the_path_of_the_image() {
    let config = WallpaperConfig { file_path: "/w/sea.png".to_string(), colors: palette() };
    let text = render_descriptor(&config).unwrap();
    assert!(text.starts_with(
        "{\n  \"file_path\": \"/w/sea.png\",\n  \"colors\": {\n    \"dark\": {\n      \"background\": \"#d00000\",\n      \"error\": \"#d00001\","
    ));
    assert!(text.ends_with("      \"tertiary_fixed_dim\": \"#e00048\"\n    }\n  }\n}"));
}

#[test]
fn the_descriptor_escapes_what_json_cannot_hold_as_it_is() {
    let config = WallpaperConfig {
        file_path: "/w/a \"quoted\" name\\.png".to_string(),
        colors: palette(),
    };
    let text = render_descriptor(&config).unwrap();
    assert!(text.starts_with("{\n  \"file_path\": \"/w/a \\\"quoted\\\" name\\\\.png\",\n"));
}

#[test]
fn the_descriptor_keeps_the_palette_exactly() {
    let colors = parse_colors(&palette_text()).unwrap();
    let config = WallpaperConfig { file_path: "/w/sea.png".to_string(), colors: colors.clone() };
    let text = render_descriptor(&config).unwrap();
    assert_eq!(parse_colors(&text), Ok(colors));
    let document = parse_json(&text).unwrap();
    assert_eq!(document.text_member("file_path"), Some("/w/sea.png"));
    assert_eq!(document, descriptor_to_json(&config));
}

#[test]
fn a_copy_of_a_descriptor_equals_it() {
    let config = WallpaperConfig { file_path: "/w/sea.png".to_string(), colors: palette() };
    assert_eq!(config.clone(), config);
}
