//! The formats that can be flattened, and how the format of an input is told.

use vstd::prelude::*;
use vstd::string::*;

use crate::error::FlatCatError;
use crate::file_extension::{extension_format, FileExtension};
use crate::text::{owned, str_eq};

verus! {

/// What the caller says about the format of an input.
#[derive(Debug, Copy, Clone, PartialEq, Eq, Structural)]
pub enum FormatHint {
    /// The input has this format, whatever its name says.
    Hint(Format),
    /// Nothing is said: the format is guessed.
    Empty,
}

impl FormatHint {
    pub fn json() -> (hint: FormatHint)
        ensures
            hint == FormatHint::Hint(Format::Json),
    {
        FormatHint::Hint(Format::Json)
    }

    pub fn toml() -> (hint: FormatHint)
        ensures
            hint == FormatHint::Hint(Format::Toml),
    {
        FormatHint::Hint(Format::Toml)
    }

    pub fn yaml() -> (hint: FormatHint)
        ensures
            hint == FormatHint::Hint(Format::Yaml),
    {
        FormatHint::Hint(Format::Yaml)
    }

    pub fn hint(format: Format) -> (hint: FormatHint)
        ensures
            hint == FormatHint::Hint(format),
    {
        FormatHint::Hint(format)
    }
}

/// A format with structure.
#[derive(Debug, Copy, Clone, PartialEq, Eq, Structural)]
pub enum Format {
    Json,
    Toml,
    Yaml,
}

/// The name of a format.
pub open spec fn format_name(format: Format) -> Seq<char> {
    match format {
        Format::Json => "json"@,
        Format::Toml => "toml"@,
        Format::Yaml => "yaml"@,
    }
}

/// The format that a name stands for.
pub open spec fn named_format(name: Seq<char>) -> Option<Format> {
    if name == "json"@ {
        Some(Format::Json)
    } else if name == "toml"@ {
        Some(Format::Toml)
    } else if name == "yaml"@ {
        Some(Format::Yaml)
    } else {
        None
    }
}

/// Whether `r` answers the question for the format of a file whose path has
/// this file name and this extension: without a file name the path is no
/// file, without an extension nothing can be guessed, and else the
/// extension decides.
pub open spec fn is_guess(
    r: Result<Format, FlatCatError>,
    file_name: Option<Seq<char>>,
    extension: Option<Seq<char>>,
) -> bool {
    match (file_name, extension) {
        (None, _) => r matches Err(FlatCatError::UnknownFormatError { msg }) && msg@
            == "not a file"@,
        (Some(_), None) => r matches Err(FlatCatError::UnknownFormatError { msg }) && msg@
            == "no file extension"@,
        (Some(_), Some(ext)) => match extension_format(ext) {
            Some(format) => r == Ok::<Format, FlatCatError>(format),
            None => r matches Err(FlatCatError::UnknownFormatExtError { ext: unknown })
                && unknown@ == ext,
        },
    }
}

/// Whether a path is a file name and nothing else, whatever the platform:
/// it is not empty, it is neither `.` nor `..`, and it holds none of `/`,
/// `\` and `:`, by which platforms part a path.
pub open spec fn is_plain_name(path: Seq<char>) -> bool {
    &&& path.len() > 0
    &&& path != seq!['.']
    &&& path != seq!['.', '.']
    &&& forall|i: int|
        0 <= i < path.len() ==> path[i] != '/' && path[i] != '\\' && path[i] != ':'
}

/// The place of the last dot of a file name, or `-1` where it has none.
pub open spec fn last_dot(name: Seq<char>) -> int
    decreases name.len(),
{
    if name.len() == 0 {
        -1
    } else if name.last() == '.' {
        name.len() - 1
    } else {
        last_dot(name.drop_last())
    }
}

/// The extension of a file name: what stands behind its last dot. A name
/// without a dot has none, nor has a name whose only dot is its first
/// character, nor has `..`.
pub open spec fn name_extension(name: Seq<char>) -> Option<Seq<char>> {
    if last_dot(name) <= 0 || name == seq!['.', '.'] {
        None
    } else {
        Some(name.subrange(last_dot(name) + 1, name.len() as int))
    }
}

/// Whether `r` answers the question for the format of the file at `path`:
/// some file name and extension account for it, and where the path is a
/// file name and nothing else, they are that name and its extension.
pub open spec fn is_path_guess(r: Result<Format, FlatCatError>, path: Seq<char>) -> bool {
    &&& exists|file_name: Option<Seq<char>>, extension: Option<Seq<char>>|
        is_guess(r, file_name, extension)
    &&& is_plain_name(path) ==> is_guess(r, Some(path), name_extension(path))
}

/// `std::path::Path::file_name`: the last component of the path, if it has
/// one. A path that is a file name and nothing else has that name as its
/// last component. How any other path falls into components differs
/// between platforms, so nothing is said of it.
#[verifier::external_body]
fn path_file_name(path: &str) -> (found: Option<String>)
    ensures
        found is None ==> !is_plain_name(path@),
        found matches Some(name) ==> (is_plain_name(path@) ==> name@ == path@),
{
    std::path::Path::new(path).file_name().map(|name| name.to_string_lossy().into_owned())
}

/// `std::path::Path::extension`: the extension of the file name, if it has
/// one, without its dot. For a path that is a file name and nothing else
/// this is the extension of that name; of any other path nothing is said.
#[verifier::external_body]
fn path_extension(path: &str) -> (ext: Option<String>)
    ensures
        ext is None ==> (is_plain_name(path@) ==> name_extension(path@) is None),
        ext matches Some(found) ==> (is_plain_name(path@) ==> name_extension(path@) == Some(
            found@,
        )),
{
    std::path::Path::new(path).extension().map(|ext| ext.to_string_lossy().into_owned())
}

impl Format {
    /// The format of a file, guessed from its path.
    pub fn guess_from_file_extension(path: &str) -> (r: Result<Format, FlatCatError>)
        ensures
            is_path_guess(r, path@),
    {
        let file_name = path_file_name(path);
        let extension = path_extension(path);
        let r = Format::guess(
            match &file_name {
                Some(name) => Some(name.as_str()),
                None => None,
            },
            match &extension {
                Some(ext) => Some(ext.as_str()),
                None => None,
            },
        );
        proof {
            let name_text = match file_name {
                Some(name) => Some(name@),
                None => None,
            };
            let ext_text = match extension {
                Some(ext) => Some(ext@),
                None => None,
            };
            assert(is_guess(r, name_text, ext_text));
        }
        r
    }

    /// The format of a file, guessed from the file name and the extension
    /// of its path.
    pub fn guess(file_name: Option<&str>, extension: Option<&str>) -> (r: Result<
        Format,
        FlatCatError,
    >)
        ensures
            is_guess(
                r,
                match file_name {
                    Some(name) => Some(name@),
                    None => None,
                },
                match extension {
                    Some(ext) => Some(ext@),
                    None => None,
                },
            ),
    {
        if file_name.is_none() {
            return Err(FlatCatError::UnknownFormatError { msg: "not a file" });
        }
        match extension {
            None => Err(FlatCatError::UnknownFormatError { msg: "no file extension" }),
            Some(ext) => FileExtension::guess_format(ext),
        }
    }

    /// The format with this name: `json`, `toml` or `yaml`.
    pub fn from_str(s: &str) -> (r: Result<Format, FlatCatError>)
        ensures
            match named_format(s@) {
                Some(format) => r == Ok::<Format, FlatCatError>(format),
                None => r matches Err(FlatCatError::ParserError { what, to, why }) && what@ == s@
                    && to@ == "Format"@ && why@ == "unknown format"@,
            },
    {
        if str_eq(s, "json") {
            Ok(Format::Json)
        } else if str_eq(s, "toml") {
            Ok(Format::Toml)
        } else if str_eq(s, "yaml") {
            Ok(Format::Yaml)
        } else {
            Err(
                FlatCatError::ParserError {
                    what: owned(s),
                    to: "Format",
                    why: owned("unknown format"),
                },
            )
        }
    }

    /// The name of the format.
    pub fn to_string(&self) -> (name: String)
        ensures
            name@ == format_name(*self),
    {
        let name = match self {
            Format::Json => "json",
            Format::Toml => "toml",
            Format::Yaml => "yaml",
        };
        owned(name)
    }
}

/// A file that is named by a plain file name whose extension stands for no
/// format has no known format: the guess is refused with that extension.
pub proof fn lemma_unknown_extension_is_refused(
    r: Result<Format, FlatCatError>,
    path: Seq<char>,
    ext: Seq<char>,
)
    requires
        is_path_guess(r, path),
        is_plain_name(path),
        name_extension(path) == Some(ext),
        extension_format(ext) is None,
    ensures
        r matches Err(FlatCatError::UnknownFormatExtError { ext: unknown }) && unknown@ == ext,
{
}

/// The name of a format stands for that format.
pub proof fn lemma_format_name_round_trip(format: Format)
    ensures
        named_format(format_name(format)) == Some(format),
{
    reveal_strlit("json");
    reveal_strlit("toml");
    reveal_strlit("yaml");
    assert("json"@[0] != "toml"@[0]);
    assert("json"@[0] != "yaml"@[0]);
    assert("toml"@[0] != "yaml"@[0]);
}

} // verus!
