//! The formats that file extensions stand for.

use vstd::prelude::*;
use vstd::string::*;

use crate::error::FlatCatError;
use crate::format::Format;
use crate::text::{owned, str_eq};

verus! {

/// The format that a file extension stands for: `json` for JSON, `toml` for
/// TOML, `yaml` and `yml` for YAML.
pub open spec fn extension_format(ext: Seq<char>) -> Option<Format> {
    if ext == "json"@ {
        Some(Format::Json)
    } else if ext == "toml"@ {
        Some(Format::Toml)
    } else if ext == "yaml"@ || ext == "yml"@ {
        Some(Format::Yaml)
    } else {
        None
    }
}

pub struct FileExtension {}

impl FileExtension {
    /// The format of files with the extension `ext`, which comes without
    /// its dot.
    pub fn guess_format(ext: &str) -> (r: Result<Format, FlatCatError>)
        ensures
            match extension_format(ext@) {
                Some(format) => r == Ok::<Format, FlatCatError>(format),
                None => r matches Err(FlatCatError::UnknownFormatExtError { ext: unknown })
                    && unknown@ == ext@,
            },
    {
        if str_eq(ext, "json") {
            Ok(Format::Json)
        } else if str_eq(ext, "toml") {
            Ok(Format::Toml)
        } else if str_eq(ext, "yaml") || str_eq(ext, "yml") {
            Ok(Format::Yaml)
        } else {
            Err(FlatCatError::UnknownFormatExtError { ext: owned(ext) })
        }
    }
}

} // verus!
