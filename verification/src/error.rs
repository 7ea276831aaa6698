//! What can go wrong.

use vstd::prelude::*;

verus! {

/// `std::io::Error`, carried as it comes.
#[verifier::external_type_specification]
#[verifier::external_body]
pub struct ExIoError(std::io::Error);

/// `serde_json::Error`, carried as it comes.
#[verifier::external_type_specification]
#[verifier::external_body]
pub struct ExJsonError(serde_json::Error);

/// `toml::de::Error`, carried as it comes.
#[verifier::external_type_specification]
#[verifier::external_body]
pub struct ExTomlError(toml::de::Error);

/// `serde_yaml::Error`, carried as it comes.
#[verifier::external_type_specification]
#[verifier::external_body]
pub struct ExYamlError(serde_yaml::Error);

/// The errors of this crate. Each ends the work on the input at hand; the
/// lines written before it stay written.
#[allow(inconsistent_fields)]
#[derive(Debug)]
pub enum FlatCatError {
    /// A text does not name what it should.
    ParserError { what: String, to: &'static str, why: String },
    /// The format of an input cannot be told.
    UnknownFormatError { msg: &'static str },
    /// The extension of a file names no format.
    UnknownFormatExtError { ext: String },
    /// An input could not be read, or is no text.
    IoError { source: std::io::Error },
    /// An input is no JSON document.
    JsonError { source: serde_json::Error },
    /// An input is no TOML document.
    TomlError { source: toml::de::Error },
    /// An input is no YAML document.
    YamlError { source: serde_yaml::Error },
}

} // verus!
