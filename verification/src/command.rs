//! The programs that a run depends on: their names, their arguments, and how
//! to tell whether one is installed.

use crate::error::{ErrorKind, ErrorView, WallpaperError};
use crate::text::texts_of;
use vstd::prelude::*;

verus! {

/// The program that derives a palette from an image.
pub const GENERATOR: &'static str = "matugen";

/// The window manager whose configuration is reloaded.
pub const WINDOW_MANAGER: &'static str = "qtile";

/// The program that looks another program up on the execution path.
pub const LOOKUP: &'static str = "which";

/// The shell that runs the reload command.
pub const SHELL: &'static str = "sh";

/// The command that makes the window manager read its configuration again.
pub const RELOAD_COMMAND: &'static str = "qtile cmd-obj -o cmd -f reload_config";

/// Whether a lookup found the program: the lookup ran and printed something.
pub open spec fn found(lookup: Option<Seq<u8>>) -> bool {
    lookup matches Some(printed) && printed.len() > 0
}

/// The bytes that a lookup printed, if it ran.
pub open spec fn printed_by(lookup: Option<&[u8]>) -> Option<Seq<u8>> {
    match lookup {
        Some(printed) => Some(printed@),
        None => None,
    }
}

/// The failure reported when the palette generator is not installed.
pub open spec fn generator_missing() -> ErrorView {
    ErrorView {
        kind: ErrorKind::MissingDependency,
        message: "matugen is not installed. Please install matugen."@,
    }
}

/// The failure reported when the window manager is not installed.
pub open spec fn window_manager_missing() -> ErrorView {
    ErrorView {
        kind: ErrorKind::MissingDependency,
        message: "Qtile is not installed. Please install Qtile."@,
    }
}

/// Whether the lookup of a program found it. `lookup` is what the lookup
/// printed, or `None` if it could not be run.
pub fn command_exists(lookup: Option<&[u8]>) -> (exists: bool)
    ensures
        exists == found(printed_by(lookup)),
{
    match lookup {
        Some(printed) => printed.len() > 0,
        None => false,
    }
}

/// Succeeds if the lookup of the palette generator found it.
pub fn check_matugen_installed(lookup: Option<&[u8]>) -> (outcome: Result<(), WallpaperError>)
    ensures
        match outcome {
            Ok(_) => found(printed_by(lookup)),
            Err(error) => !found(printed_by(lookup)) && error@ == generator_missing(),
        },
{
    if command_exists(lookup) {
        Ok(())
    } else {
        Err(
            WallpaperError::new(
                ErrorKind::MissingDependency,
                "matugen is not installed. Please install matugen.".to_owned(),
            ),
        )
    }
}

/// Succeeds if the lookup of the window manager found it.
pub fn check_qtile_installed(lookup: Option<&[u8]>) -> (outcome: Result<(), WallpaperError>)
    ensures
        match outcome {
            Ok(_) => found(printed_by(lookup)),
            Err(error) => !found(printed_by(lookup)) && error@ == window_manager_missing(),
        },
{
    if command_exists(lookup) {
        Ok(())
    } else {
        Err(
            WallpaperError::new(
                ErrorKind::MissingDependency,
                "Qtile is not installed. Please install Qtile.".to_owned(),
            ),
        )
    }
}

/// The arguments with which the lookup of `program` runs.
pub open spec fn lookup_arguments_of(program: Seq<char>) -> Seq<Seq<char>> {
    seq![program]
}

/// The arguments with which the generator runs on the image at `image_path`:
/// they ask for the palette as JSON with hexadecimal colors.
pub open spec fn generator_arguments_of(image_path: Seq<char>) -> Seq<Seq<char>> {
    seq!["image"@, image_path, "--json"@, "hex"@]
}

/// The arguments with which the shell runs `command`.
pub open spec fn shell_arguments_of(command: Seq<char>) -> Seq<Seq<char>> {
    seq!["-c"@, command]
}

/// The arguments with which the lookup of `program` runs.
pub fn lookup_arguments(program: &str) -> (arguments: Vec<String>)
    ensures
        texts_of(arguments@) == lookup_arguments_of(program@),
{
    let mut arguments: Vec<String> = Vec::new();
    arguments.push(program.to_owned());
    arguments
}

/// The arguments with which the generator runs on the image at `image_path`.
pub fn generator_arguments(image_path: &str) -> (arguments: Vec<String>)
    ensures
        texts_of(arguments@) == generator_arguments_of(image_path@),
{
    let mut arguments: Vec<String> = Vec::new();
    arguments.push("image".to_owned());
    arguments.push(image_path.to_owned());
    arguments.push("--json".to_owned());
    arguments.push("hex".to_owned());
    arguments
}

/// The arguments with which the shell runs `command`.
pub fn shell_arguments(command: &str) -> (arguments: Vec<String>)
    ensures
        texts_of(arguments@) == shell_arguments_of(command@),
{
    let mut arguments: Vec<String> = Vec::new();
    arguments.push("-c".to_owned());
    arguments.push(command.to_owned());
    arguments
}

} // verus!
