//! The two documents of a run: the palette that the generator prints, and
//! the descriptor that records the active wallpaper and its palette.

use crate::error::{ErrorKind, ErrorView, WallpaperError};
use crate::json::{
    first_named, json_parsed, json_pretty, json_view, parse_json, render_json, Json, JsonValue,
};
use crate::palette::{
    lemma_role_names_distinct, role_name, role_name_at, ColorScheme, Colors, ColorsView,
    ROLE_COUNT,
};
use crate::text::{agrees, decode_lossy, joined, joined3, utf8_lossy};
use vstd::prelude::*;

verus! {

/// The descriptor: where the active wallpaper lies, and its palette.
#[derive(Debug, PartialEq, Eq)]
pub struct WallpaperConfig {
    pub file_path: String,
    pub colors: Colors,
}

/// What a `WallpaperConfig` stands for in contracts.
pub ghost struct ConfigView {
    pub file_path: Seq<char>,
    pub colors: ColorsView,
}

impl View for WallpaperConfig {
    type V = ConfigView;

    open spec fn view(&self) -> ConfigView {
        ConfigView { file_path: self.file_path@, colors: self.colors@ }
    }
}

impl Clone for WallpaperConfig {
    fn clone(&self) -> (copy: WallpaperConfig)
        ensures
            copy@ == self@,
    {
        WallpaperConfig { file_path: self.file_path.clone(), colors: self.colors.clone() }
    }
}

/// Whether the color of `role` is missing from `json`: no member of that
/// name, or one that is no string.
pub open spec fn role_missing(json: JsonValue, role: int) -> bool {
    json.text_member(role_name(role)) is None
}

/// Whether `role` is the first role whose color is missing from `json`.
pub open spec fn first_missing(json: JsonValue, role: int) -> bool {
    &&& 0 <= role < ROLE_COUNT
    &&& role_missing(json, role)
    &&& forall|earlier: int| 0 <= earlier < role ==> !role_missing(json, earlier)
}

/// The scheme that `json` holds: the string under each role's name. Where a
/// color is missing, the name of the first such role.
pub open spec fn scheme_of(json: JsonValue) -> Result<Seq<Seq<char>>, Seq<char>> {
    if exists|role: int| first_missing(json, role) {
        Err(role_name(choose|role: int| first_missing(json, role)))
    } else {
        Ok(Seq::new(ROLE_COUNT as nat, |role: int| json.text_member(role_name(role))->0))
    }
}

/// The palette that a document of the generator holds: the schemes under
/// `colors.dark` and `colors.light`. Where something is missing, the path of
/// the first such member.
pub open spec fn colors_of(json: JsonValue) -> Result<ColorsView, Seq<char>> {
    match json.member("colors"@) {
        None => Err("colors"@),
        Some(colors) => match colors.member("dark"@) {
            None => Err("colors.dark"@),
            Some(dark) => match scheme_of(dark) {
                Err(role) => Err("colors.dark."@ + role),
                Ok(dark_scheme) => match colors.member("light"@) {
                    None => Err("colors.light"@),
                    Some(light) => match scheme_of(light) {
                        Err(role) => Err("colors.light."@ + role),
                        Ok(light_scheme) => Ok(
                            ColorsView { dark: dark_scheme, light: light_scheme },
                        ),
                    },
                },
            },
        },
    }
}

/// The failure reported for output of the generator that is no palette.
pub open spec fn parse_failure(detail: Seq<char>) -> ErrorView {
    ErrorView {
        kind: ErrorKind::ParseFailure,
        message: "Failed to parse matugen output: "@ + detail,
    }
}

/// The failure reported when the descriptor cannot be printed.
pub open spec fn serialize_failure(detail: Seq<char>) -> ErrorView {
    ErrorView {
        kind: ErrorKind::InternalError,
        message: "Failed to serialize wallpaper config: "@ + detail,
    }
}

/// The palette that a parsed document holds, or the failure to report.
pub open spec fn colors_of_document(json: JsonValue) -> Result<ColorsView, ErrorView> {
    match colors_of(json) {
        Ok(colors) => Ok(colors),
        Err(path) => Err(parse_failure("missing or invalid field `"@ + path + "`"@)),
    }
}

/// The palette that the text of a document holds, or the failure to report.
///
/// The text is read as `serde_json` reads any JSON value, and that keeps the
/// last value where an object names a member twice. So output that repeats
/// a name is no failure here: the palette is read from the last value under
/// each name. A parse into a value cannot see the repetition.
pub open spec fn colors_of_text(text: Seq<char>) -> Result<ColorsView, ErrorView> {
    match json_parsed(text) {
        Ok(json) => colors_of_document(json),
        Err(message) => Err(parse_failure(message)),
    }
}

/// The document of a scheme: an object with one string for each role, in the
/// order of the roles.
pub open spec fn scheme_json(scheme: Seq<Seq<char>>) -> JsonValue {
    JsonValue::Object(
        Seq::new(ROLE_COUNT as nat, |role: int| (role_name(role), JsonValue::Text(scheme[role]))),
    )
}

/// The document of a palette: the dark scheme, then the light one.
pub open spec fn colors_json(colors: ColorsView) -> JsonValue {
    JsonValue::Object(
        seq![("dark"@, scheme_json(colors.dark)), ("light"@, scheme_json(colors.light))],
    )
}

/// The document of a descriptor: the path of the image, then the palette.
pub open spec fn descriptor_json(config: ConfigView) -> JsonValue {
    JsonValue::Object(
        seq![
            ("file_path"@, JsonValue::Text(config.file_path)),
            ("colors"@, colors_json(config.colors)),
        ],
    )
}

/// The text of a descriptor, or the failure to report.
pub open spec fn descriptor_text(config: ConfigView) -> Result<Seq<char>, ErrorView> {
    match json_pretty(descriptor_json(config)) {
        Ok(text) => Ok(text),
        Err(message) => Err(serialize_failure(message)),
    }
}

/// Reads a scheme from `json`, or names the first role whose color is
/// missing.
pub fn scheme_from_json(json: &Json) -> (outcome: Result<ColorScheme, String>)
    ensures
        agrees(outcome, scheme_of(json@)),
{
    let mut values: Vec<String> = Vec::new();
    let mut role: usize = 0;
    while role < ROLE_COUNT
        invariant
            role <= ROLE_COUNT,
            values.len() == role,
            forall|r: int|
                0 <= r < role ==> json@.text_member(role_name(r)) == Some(#[trigger] values[r]@),
        decreases ROLE_COUNT - role,
    {
        match json.text_member(role_name_at(role)) {
            Some(color) => {
                values.push(color.to_owned());
            },
            None => {
                proof {
                    assert forall|earlier: int| 0 <= earlier < role implies !role_missing(
                        json@,
                        earlier,
                    ) by {
                        assert(json@.text_member(role_name(earlier)) == Some(values[earlier]@));
                    }
                    assert(first_missing(json@, role as int));
                }
                return Err(role_name_at(role).to_owned());
            },
        }
        role = role + 1;
    }
    proof {
        assert forall|r: int| !first_missing(json@, r) by {
            if 0 <= r < ROLE_COUNT {
                assert(json@.text_member(role_name(r)) == Some(values[r]@));
            }
        }
    }
    match ColorScheme::from_values(values) {
        Some(scheme) => {
            assert(scheme@ =~= scheme_of(json@)->Ok_0);
            Ok(scheme)
        },
        None => Err(String::new()),
    }
}

/// Reads the palette from a document of the generator, or gives the path of
/// the first member that is missing.
pub fn colors_from_json(json: &Json) -> (outcome: Result<Colors, String>)
    ensures
        agrees(outcome, colors_of(json@)),
{
    let colors = match json.member("colors") {
        Some(colors) => colors,
        None => {
            return Err("colors".to_owned());
        },
    };
    let dark = match colors.member("dark") {
        Some(dark) => dark,
        None => {
            return Err("colors.dark".to_owned());
        },
    };
    let dark_scheme = match scheme_from_json(dark) {
        Ok(scheme) => scheme,
        Err(role) => {
            return Err(joined("colors.dark.", role.as_str()));
        },
    };
    let light = match colors.member("light") {
        Some(light) => light,
        None => {
            return Err("colors.light".to_owned());
        },
    };
    let light_scheme = match scheme_from_json(light) {
        Ok(scheme) => scheme,
        Err(role) => {
            return Err(joined("colors.light.", role.as_str()));
        },
    };
    Ok(Colors { dark: dark_scheme, light: light_scheme })
}

/// Reads the palette from a parsed document, or gives the failure to report.
pub fn colors_from_document(json: &Json) -> (outcome: Result<Colors, WallpaperError>)
    ensures
        agrees(outcome, colors_of_document(json@)),
{
    match colors_from_json(json) {
        Ok(colors) => Ok(colors),
        Err(path) => {
            let detail = joined3("missing or invalid field `", path.as_str(), "`");
            Err(
                WallpaperError::new(
                    ErrorKind::ParseFailure,
                    joined("Failed to parse matugen output: ", detail.as_str()),
                ),
            )
        },
    }
}

/// Reads the palette from the text that the generator printed.
///
/// Output in which an object names a member twice is accepted, with the last
/// value under that name: `serde_json` hands on no more of such an object,
/// so the repetition cannot be turned down here.
pub fn parse_colors(text: &str) -> (outcome: Result<Colors, WallpaperError>)
    ensures
        agrees(outcome, colors_of_text(text@)),
{
    match parse_json(text) {
        Ok(json) => colors_from_document(&json),
        Err(message) => Err(
            WallpaperError::new(
                ErrorKind::ParseFailure,
                joined("Failed to parse matugen output: ", message.as_str()),
            ),
        ),
    }
}

/// Reads the palette from the bytes that the generator printed; what is not
/// valid UTF-8 among them is read as the replacement character.
pub fn colors_from_output(output: &[u8]) -> (outcome: Result<Colors, WallpaperError>)
    ensures
        agrees(outcome, colors_of_text(utf8_lossy(output@))),
{
    let text = decode_lossy(output);
    parse_colors(text.as_str())
}

/// The document of `scheme`.
pub fn scheme_to_json(scheme: &ColorScheme) -> (json: Json)
    ensures
        json@ == scheme_json(scheme@),
{
    let mut members: Vec<(String, Json)> = Vec::new();
    let mut role: usize = 0;
    while role < ROLE_COUNT
        invariant
            role <= ROLE_COUNT,
            members.len() == role,
            forall|r: int|
                0 <= r < role ==> (#[trigger] members[r]).0@ == role_name(r) && members[r].1@
                    == JsonValue::Text(scheme@[r]),
        decreases ROLE_COUNT - role,
    {
        let color = match scheme.color(role) {
            Some(color) => color.to_owned(),
            None => String::new(),
        };
        members.push((role_name_at(role).to_owned(), Json::Text(color)));
        role = role + 1;
    }
    let json = Json::Object(members);
    assert(json@->Object_0 =~= scheme_json(scheme@)->Object_0);
    json
}

/// The document of `colors`.
pub fn colors_to_json(colors: &Colors) -> (json: Json)
    ensures
        json@ == colors_json(colors@),
{
    let mut members: Vec<(String, Json)> = Vec::new();
    members.push(("dark".to_owned(), scheme_to_json(&colors.dark)));
    members.push(("light".to_owned(), scheme_to_json(&colors.light)));
    let json = Json::Object(members);
    assert(json@->Object_0 =~= colors_json(colors@)->Object_0);
    json
}

/// The document of `config`.
pub fn descriptor_to_json(config: &WallpaperConfig) -> (json: Json)
    ensures
        json@ == descriptor_json(config@),
{
    let mut members: Vec<(String, Json)> = Vec::new();
    members.push(("file_path".to_owned(), Json::Text(config.file_path.clone())));
    members.push(("colors".to_owned(), colors_to_json(&config.colors)));
    let json = Json::Object(members);
    proof {
        reveal_with_fuel(json_view, 2);
    }
    assert(json@->Object_0 =~= descriptor_json(config@)->Object_0);
    json
}

/// The members of a descriptor, and those of a palette, differ in name.
proof fn lemma_member_names_differ()
    ensures
        "file_path"@ != "colors"@,
        "dark"@ != "light"@,
{
    reveal_strlit("file_path");
    reveal_strlit("colors");
    reveal_strlit("dark");
    reveal_strlit("light");
    assert("file_path"@.len() == 9 && "colors"@.len() == 6);
    assert("dark"@.len() == 4 && "light"@.len() == 5);
}

/// In the document of a descriptor no object names two of its members alike.
pub proof fn lemma_descriptor_keys_unique(config: ConfigView)
    ensures
        descriptor_json(config).unique_keys(),
{
    lemma_member_names_differ();
    lemma_role_names_distinct();
    reveal_with_fuel(JsonValue::unique_keys, 2);
    assert(scheme_json(config.colors.dark).unique_keys());
    assert(scheme_json(config.colors.light).unique_keys());
}

/// Prints `config` as the indented JSON text of the descriptor.
pub fn render_descriptor(config: &WallpaperConfig) -> (outcome: Result<String, WallpaperError>)
    ensures
        agrees(outcome, descriptor_text(config@)),
{
    let json = descriptor_to_json(config);
    proof {
        lemma_descriptor_keys_unique(config@);
    }
    match render_json(json) {
        Ok(text) => Ok(text),
        Err(message) => Err(
            WallpaperError::new(
                ErrorKind::InternalError,
                joined("Failed to serialize wallpaper config: ", message.as_str()),
            ),
        ),
    }
}

/// The document of a scheme holds that scheme: reading it gives back every
/// color.
pub proof fn lemma_scheme_reads_back(scheme: Seq<Seq<char>>)
    requires
        scheme.len() == ROLE_COUNT,
    ensures
        scheme_of(scheme_json(scheme)) == Ok::<Seq<Seq<char>>, Seq<char>>(scheme),
{
    lemma_role_names_distinct();
    let json = scheme_json(scheme);
    let members = json->Object_0;
    assert forall|r: int| 0 <= r < ROLE_COUNT implies json.text_member(role_name(r)) == Some(
        scheme[r],
    ) by {
        assert(first_named(members, role_name(r), r));
    }
    assert(scheme_of(json)->Ok_0 =~= scheme);
}

/// The descriptor keeps the palette exactly: whoever reads the descriptor's
/// document as a document of the generator finds the palette that the
/// descriptor was made of.
pub proof fn lemma_descriptor_keeps_palette(config: ConfigView)
    requires
        config.colors.dark.len() == ROLE_COUNT,
        config.colors.light.len() == ROLE_COUNT,
    ensures
        colors_of(descriptor_json(config)) == Ok::<ColorsView, Seq<char>>(config.colors),
        colors_of_document(descriptor_json(config)) == Ok::<ColorsView, ErrorView>(config.colors),
{
    lemma_member_names_differ();
    let json = descriptor_json(config);
    let outer = json->Object_0;
    assert(first_named(outer, "colors"@, 1));
    let inner = colors_json(config.colors)->Object_0;
    assert(first_named(inner, "dark"@, 0));
    assert(first_named(inner, "light"@, 1));
    lemma_scheme_reads_back(config.colors.dark);
    lemma_scheme_reads_back(config.colors.light);
}

} // verus!

