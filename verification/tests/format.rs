use flatcat::file_extension::FileExtension;
use flatcat::{FlatCatError, Format, FormatHint, Input};

#[test]
fn json() {
    let format = FileExtension::guess_format("json");

    assert_eq!(format.ok(), Some(Format::Json), "json extension");
}

#[test]
fn yaml() {
    let format = FileExtension::guess_format("yaml");

    assert_eq!(format.ok(), Some(Format::Yaml), "yaml extension");
}

#[test]
fn yml() {
    let format = FileExtension::guess_format("yml");

    assert_eq!(format.ok(), Some(Format::Yaml), "yml extension");
}

#[test]
fn toml_extension() {
    let format = FileExtension::guess_format("toml");

    assert_eq!(format.ok(), Some(Format::Toml));
}

#[test]
fn unknown_extension() {
    let format = FileExtension::guess_format("txt");

    assert!(matches!(format, Err(FlatCatError::UnknownFormatExtError { ext }) if ext == "txt"));
}

#[test]
fn extension_is_case_sensitive() {
    assert!(FileExtension::guess_format("JSON").is_err());
    assert!(FileExtension::guess_format("").is_err());
}

#[test]
fn json_from_str() {
    let format = Format::from_str(&Format::Json.to_string());

    assert_eq!(format.ok(), Some(Format::Json), "json is parsed successfully");
}

#[test]
fn toml_from_str() {
    let format = Format::from_str(&Format::Toml.to_string());

    assert_eq!(format.ok(), Some(Format::Toml), "toml is parsed successfully");
}

#[test]
fn yaml_from_str() {
    let format = Format::from_str(&Format::Yaml.to_string());

    assert_eq!(format.ok(), Some(Format::Yaml), "yaml is parsed successfully");
}

#[test]
fn format_names() {
    assert_eq!(Format::Json.to_string(), "json");
    assert_eq!(Format::Toml.to_string(), "toml");
    assert_eq!(Format::Yaml.to_string(), "yaml");
}

#[test]
fn unknown_format_name() {
    let format = Format::from_str("yml");

    assert!(matches!(
        format,
        Err(FlatCatError::ParserError { what, to, why })
            if what == "yml" && to == "Format" && why == "unknown format"
    ));
}

#[test]
fn guess_from_path() {
    assert_eq!(Format::guess_from_file_extension("dir/simple.json").ok(), Some(Format::Json));
    assert_eq!(Format::guess_from_file_extension("Cargo.toml").ok(), Some(Format::Toml));
    assert_eq!(Format::guess_from_file_extension("a.b/c.yml").ok(), Some(Format::Yaml));
}

#[test]
fn guess_without_file_name() {
    let format = Format::guess_from_file_extension("..");

    assert!(matches!(format, Err(FlatCatError::UnknownFormatError { msg }) if msg == "not a file"));
}

#[test]
fn guess_without_extension() {
    let format = Format::guess_from_file_extension("dir.d/Makefile");

    assert!(matches!(
        format,
        Err(FlatCatError::UnknownFormatError { msg }) if msg == "no file extension"
    ));
}

#[test]
fn guess_with_unknown_extension() {
    let format = Format::guess_from_file_extension("notes.txt");

    assert!(matches!(format, Err(FlatCatError::UnknownFormatExtError { ext }) if ext == "txt"));
}

#[test]
fn guess_from_parts() {
    assert_eq!(Format::guess(Some("a.json"), Some("json")).ok(), Some(Format::Json));
    assert!(matches!(
        Format::guess(None, Some("json")),
        Err(FlatCatError::UnknownFormatError { msg }) if msg == "not a file"
    ));
    assert!(matches!(
        Format::guess(Some("a"), None),
        Err(FlatCatError::UnknownFormatError { msg }) if msg == "no file extension"
    ));
}

#[test]
fn hints() {
    assert_eq!(FormatHint::json(), FormatHint::Hint(Format::Json));
    assert_eq!(FormatHint::toml(), FormatHint::Hint(Format::Toml));
    assert_eq!(FormatHint::yaml(), FormatHint::Hint(Format::Yaml));
    assert_eq!(FormatHint::hint(Format::Toml), FormatHint::Hint(Format::Toml));
}

#[test]
fn format_of_input_with_hint() {
    let input = Input::from_path("notes.txt", Vec::new()).with_format_hint(FormatHint::yaml());
    assert_eq!(input.format().ok(), Some(Format::Yaml));

    let input = Input::from_read(Vec::new()).with_format_hint(FormatHint::json());
    assert_eq!(input.format().ok(), Some(Format::Json));
}

#[test]
fn format_of_file_is_guessed() {
    let input = Input::from_path("simple.toml", Vec::new());

    assert_eq!(input.format().ok(), Some(Format::Toml));
}

#[test]
fn format_of_stream_is_unknown() {
    let input = Input::from_read(b"{}".to_vec());

    assert!(matches!(
        input.format(),
        Err(FlatCatError::UnknownFormatError { msg }) if msg == "cannot determine format from stream"
    ));
}
