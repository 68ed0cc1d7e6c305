//! Where the files of a run lie: the directory of the active wallpaper, the
//! cache directory, the place of the copied image and of the descriptor.

use vstd::prelude::*;

verus! {

/// The directory of the active wallpaper, below the output directory.
pub const ACTIVE_DIRECTORY: &'static str = "wallpaper/active";

/// The directory of the descriptor, below the output directory.
pub const CACHE_DIRECTORY: &'static str = "cache";

/// The file name of the descriptor.
pub const DESCRIPTOR_NAME: &'static str = "wallpaper_info.json";

/// The output directory that is used when none is given.
pub const DEFAULT_OUTPUT_DIRECTORY: &'static str = "~/.config/qtile";

/// Whether `input` begins with a tilde that the home directory replaces: one
/// that ends the text or is followed by a slash, or by a backslash where
/// `backslash` says that it separates too.
pub open spec fn tilde_leads(input: Seq<char>, backslash: bool) -> bool {
    &&& input.len() > 0
    &&& input[0] == '~'
    &&& (input.len() == 1 || input[1] == '/' || (backslash && input[1] == '\\'))
}

/// `input` with a leading tilde replaced by the home directory, where there
/// is such a tilde and a home directory; else `input` itself.
pub open spec fn tilde_expanded(input: Seq<char>, home: Option<Seq<char>>, backslash: bool) -> Seq<
    char,
> {
    match home {
        Some(directory) if tilde_leads(input, backslash) => directory + input.skip(1),
        _ => input,
    }
}

/// Whether `expanded` is `input` with its home-directory shorthand expanded.
/// A tilde before a backslash is left to the platform: it is replaced where
/// the backslash separates path components, and kept elsewhere.
pub open spec fn expands_to(input: Seq<char>, home: Option<Seq<char>>, expanded: Seq<char>) -> bool {
    expanded == tilde_expanded(input, home, false) || expanded == tilde_expanded(input, home, true)
}

/// What the standard library's `Path::join` makes of two paths.
pub uninterp spec fn path_joined(base: Seq<char>, part: Seq<char>) -> Seq<char>;

/// What the standard library's `Path::file_name` finds in a path: its final
/// component, if it has one.
pub uninterp spec fn path_file_name(path: Seq<char>) -> Option<Seq<char>>;

/// How the standard library's `Debug` shows a path: in quotes, with what
/// needs it escaped.
pub uninterp spec fn path_quoted(path: Seq<char>) -> Seq<char>;

/// The characters of an optional text.
pub open spec fn text_of(text: Option<&str>) -> Option<Seq<char>> {
    match text {
        Some(characters) => Some(characters@),
        None => None,
    }
}

/// Expands a leading tilde.
///
/// Calls `shellexpand::tilde_with_context` with a context that answers
/// `home`. The contract states what that function does: where the input
/// starts with `~` and the rest is empty or starts with `/` (on Windows also
/// with `\`), and the context gives a home directory, the result is that
/// directory followed by the rest; in every other case it is the input.
#[verifier::external_body]
fn expand_tilde(input: &str, home: Option<&str>) -> (expanded: String)
    ensures
        expands_to(input@, text_of(home), expanded@),
{
    shellexpand::tilde_with_context(input, || home).into_owned()
}

/// Adjoins `part` to `base`.
///
/// Calls `Path::join` of the standard library on the two texts and hands
/// back its result as text. The contract gives that result its name,
/// `path_joined`, and claims nothing else of it.
#[verifier::external_body]
fn join_path(base: &str, part: &str) -> (joined: String)
    ensures
        joined@ == path_joined(base@, part@),
{
    std::path::Path::new(base).join(part).to_string_lossy().into_owned()
}

/// The final component of `path`.
///
/// Calls `Path::file_name` of the standard library and hands back its result
/// as text. The contract gives that result its name, `path_file_name`, and
/// claims nothing else of it.
#[verifier::external_body]
fn final_component(path: &str) -> (name: Option<String>)
    ensures
        match name {
            Some(component) => path_file_name(path@) == Some(component@),
            None => path_file_name(path@) is None,
        },
{
    match std::path::Path::new(path).file_name() {
        Some(component) => Some(component.to_string_lossy().into_owned()),
        None => None,
    }
}

/// `path` as the standard library's `Debug` shows a `Path`.
///
/// The contract gives the text its name, `path_quoted`, and claims nothing
/// else of it.
#[verifier::external_body]
pub(crate) fn quote_path(path: &str) -> (quoted: String)
    ensures
        quoted@ == path_quoted(path@),
{
    format!("{:?}", std::path::Path::new(path))
}

/// `path` with its home-directory shorthand expanded to `home`, the user's
/// home directory if it is known.
pub fn expand_home(path: &str, home: Option<&str>) -> (expanded: String)
    ensures
        expands_to(path@, text_of(home), expanded@),
        path@.len() > 0 && path@[0] == '~' && (path@.len() == 1 || path@[1] == '/') ==> expanded@
            == (match home {
            Some(directory) => directory@ + path@.skip(1),
            None => path@,
        }),
        path@.len() == 0 || path@[0] != '~' ==> expanded@ == path@,
{
    expand_tilde(path, home)
}

/// The path of `sub_path` below `directory`, whose home-directory shorthand
/// is expanded first.
pub fn resolve_path(directory: &str, home: Option<&str>, sub_path: &str) -> (resolved: String)
    ensures
        exists|expanded: Seq<char>|
            expands_to(directory@, text_of(home), expanded) && resolved@ == path_joined(
                expanded,
                sub_path@,
            ),
{
    let expanded = expand_tilde(directory, home);
    join_path(expanded.as_str(), sub_path)
}

/// The final component of `path`: the name of the file that it leads to.
pub fn file_name(path: &str) -> (name: Option<String>)
    ensures
        match name {
            Some(component) => path_file_name(path@) == Some(component@),
            None => path_file_name(path@) is None,
        },
{
    final_component(path)
}

/// The paths that a run works with.
#[derive(Debug, PartialEq, Eq)]
pub struct Layout {
    /// The directory that holds the active wallpaper and nothing else.
    pub active_directory: String,
    /// Where the image is copied to; `None` if its path names no file.
    pub destination: Option<String>,
    /// The file that the descriptor is written to.
    pub descriptor_path: String,
}

/// What a `Layout` stands for in contracts.
pub ghost struct LayoutView {
    pub active_directory: Seq<char>,
    pub destination: Option<Seq<char>>,
    pub descriptor_path: Seq<char>,
}

impl View for Layout {
    type V = LayoutView;

    open spec fn view(&self) -> LayoutView {
        LayoutView {
            active_directory: self.active_directory@,
            destination: match self.destination {
                Some(path) => Some(path@),
                None => None,
            },
            descriptor_path: self.descriptor_path@,
        }
    }
}

/// The layout below an output directory that is already expanded: the image
/// goes into the active directory under its own file name, the descriptor
/// into the cache directory.
pub open spec fn layout_below(root: Seq<char>, wallpaper_path: Seq<char>) -> LayoutView {
    let active = path_joined(root, ACTIVE_DIRECTORY@);
    LayoutView {
        active_directory: active,
        destination: match path_file_name(wallpaper_path) {
            Some(name) => Some(path_joined(active, name)),
            None => None,
        },
        descriptor_path: path_joined(path_joined(root, CACHE_DIRECTORY@), DESCRIPTOR_NAME@),
    }
}

/// Whether `layout` is the layout of a run that sets the image at
/// `wallpaper_path` below `output_directory`.
pub open spec fn lays_out(
    wallpaper_path: Seq<char>,
    output_directory: Seq<char>,
    home: Option<Seq<char>>,
    layout: LayoutView,
) -> bool {
    exists|root: Seq<char>|
        expands_to(output_directory, home, root) && layout == layout_below(root, wallpaper_path)
}

impl Layout {
    /// The layout of a run that sets the image at `wallpaper_path` below
    /// `output_directory`, whose home-directory shorthand stands for `home`.
    pub fn new(wallpaper_path: &str, output_directory: &str, home: Option<&str>) -> (layout: Layout)
        ensures
            lays_out(wallpaper_path@, output_directory@, text_of(home), layout@),
    {
        let root = expand_tilde(output_directory, home);
        let active_directory = join_path(root.as_str(), ACTIVE_DIRECTORY);
        let cache_directory = join_path(root.as_str(), CACHE_DIRECTORY);
        let destination = match final_component(wallpaper_path) {
            Some(name) => Some(join_path(active_directory.as_str(), name.as_str())),
            None => None,
        };
        let descriptor_path = join_path(cache_directory.as_str(), DESCRIPTOR_NAME);
        let layout = Layout { active_directory, destination, descriptor_path };
        assert(layout@ == layout_below(root@, wallpaper_path@));
        layout
    }
}

impl Clone for Layout {
    fn clone(&self) -> (copy: Layout)
        ensures
            copy@ == self@,
    {
        Layout {
            active_directory: self.active_directory.clone(),
            destination: match &self.destination {
                Some(path) => Some(path.clone()),
                None => None,
            },
            descriptor_path: self.descriptor_path.clone(),
        }
    }
}

} // verus!
