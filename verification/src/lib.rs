//! Flattens hierarchically structured documents into `path: value` lines.
//!
//! A document in JSON, TOML or YAML is walked depth first, and each of its
//! leaves becomes one line: the path that leads to the leaf, a colon, and
//! the value. An input of no known format can be written line by line as
//! it stands.

use vstd::prelude::*;

use crate::catter::json::{json_document, JsonCatter, JsonCatterOpts};
use crate::catter::plain::{plain_reading, PlainCatter};
use crate::catter::toml::{toml_document, TomlCatter};
use crate::catter::yaml::{yaml_reading, YamlCatter, YamlCatterOpts};
use crate::catter::{document_reading, Catter, Reading};
pub use crate::error::FlatCatError;
pub use crate::format::{Format, FormatHint};
pub use crate::input::Input;
use crate::input::InputReader;
use crate::output::{views, OutputWriter, Written};
pub use crate::output::{Output, OutputOpts};

pub mod catter;
pub mod error;
pub mod file_extension;
pub mod format;
pub mod input;
pub mod node;
pub mod output;
pub mod style;
pub mod text;

verus! {

/// How inputs are treated.
#[derive(Debug, Clone, Copy, PartialEq, Eq, Structural)]
pub struct FlatCatOpts {
    /// Whether an input whose format cannot be told is written line by
    /// line, as it stands.
    pub cat_plain: bool,
}

impl FlatCatOpts {
    /// Inputs of unknown format are written as they stand.
    pub fn new() -> (opts: FlatCatOpts)
        ensures
            opts == (FlatCatOpts { cat_plain: true }),
    {
        FlatCatOpts { cat_plain: true }
    }

    pub fn with_plain(self, cat_plain: bool) -> (opts: FlatCatOpts)
        ensures
            opts == (FlatCatOpts { cat_plain }),
    {
        FlatCatOpts { cat_plain }
    }
}

impl Default for FlatCatOpts {
    fn default() -> (opts: FlatCatOpts)
        ensures
            opts == (FlatCatOpts { cat_plain: true }),
    {
        FlatCatOpts { cat_plain: true }
    }
}

/// What is made of an input whose format was told as `format`: the reading
/// of the catter of that format; where the format could not be told, the
/// reading of the plain catter if `cat_plain` allows it, and else none.
pub open spec fn reading_as(
    format: Result<Format, FlatCatError>,
    cat_plain: bool,
    content: Seq<u8>,
    colorful: bool,
) -> Option<Reading> {
    match format {
        Ok(Format::Json) => Some(document_reading(json_document(content), colorful)),
        Ok(Format::Toml) => Some(document_reading(toml_document(content), colorful)),
        Ok(Format::Yaml) => Some(yaml_reading(content, colorful)),
        Err(_) => if cat_plain {
            Some(plain_reading(content, 0))
        } else {
            None
        },
    }
}

/// An input whose format could not be told is read plainly, line by line,
/// where the options allow it, and is not read at all where they do not.
pub proof fn lemma_unknown_format_falls_back(
    format: Result<Format, FlatCatError>,
    cat_plain: bool,
    content: Seq<u8>,
    colorful: bool,
)
    requires
        format is Err,
    ensures
        cat_plain ==> reading_as(format, cat_plain, content, colorful) == Some(
            plain_reading(content, 0),
        ),
        !cat_plain ==> reading_as(format, cat_plain, content, colorful) is None,
{
}

/// Whether an error is one that reading an input as `format` can end in: the
/// error of the format's parser (for YAML also a parser error, for a key
/// that is no string), and for a plain input an I/O error.
pub open spec fn is_reading_error(format: Result<Format, FlatCatError>, error: FlatCatError) -> bool {
    match format {
        Ok(Format::Json) => error is JsonError,
        Ok(Format::Toml) => error is TomlError,
        Ok(Format::Yaml) => error is YamlError || error is ParserError,
        Err(_) => error is IoError,
    }
}

/// Flattens inputs, one after the other, into one output.
#[derive(Debug)]
pub struct FlatCat {
    opts: FlatCatOpts,
    output: OutputWriter,
}

impl FlatCat {
    /// The options.
    pub closed spec fn opts(&self) -> FlatCatOpts {
        self.opts
    }

    /// The state of the renderer.
    pub closed spec fn written(&self) -> Written {
        self.output@
    }

    /// Whether the renderer is well formed.
    pub closed spec fn wf(&self) -> bool {
        self.output.wf()
    }

    /// Whether `after` and `r` are what comes of reading `content` as
    /// `format`. Where there is a reading, its records are written, in
    /// order, and `r` is `Ok` if the reading is complete. Where there is
    /// none, nothing is written and `r` is the error that says why the
    /// format could not be told.
    pub open spec fn is_outcome(
        &self,
        after: &FlatCat,
        format: Result<Format, FlatCatError>,
        content: Seq<u8>,
        r: Result<(), FlatCatError>,
    ) -> bool {
        &&& after.wf()
        &&& after.opts() == self.opts()
        &&& match reading_as(format, self.opts().cat_plain, content, self.written().opts.colorful) {
            Some(reading) => {
                &&& after.written() == self.written().write_all(reading.records)
                &&& r is Ok <==> reading.complete
                &&& r matches Err(error) ==> is_reading_error(format, error)
            },
            None => {
                &&& after.written() == self.written()
                &&& format matches Err(error) && r == Err::<(), FlatCatError>(error)
            },
        }
    }

    /// A flattener with these options that writes to `output`.
    pub fn new(opts: FlatCatOpts, output: Output) -> (r: Result<FlatCat, FlatCatError>)
        ensures
            r matches Ok(flatcat) && flatcat.wf() && flatcat.opts() == opts && flatcat.written()
                == (match output {
                Output::Write(inner, opts) => Written {
                    opts,
                    lines: views(inner@),
                    count: 0,
                },
                Output::StdOut(opts) => Written { opts, lines: Seq::empty(), count: 0 },
            }),
    {
        match OutputWriter::try_from(output) {
            Ok(output) => Ok(FlatCat { opts, output }),
            Err(error) => Err(error),
        }
    }

    /// The renderer, with all that was written.
    pub fn output(&self) -> (output: &OutputWriter)
        ensures
            output@ == self.written(),
            output.wf() == self.wf(),
    {
        &self.output
    }

    /// Flattens an input: its format is told from the hint or, for a file
    /// without hint, guessed from the path; then the input is read as
    /// `cat_format` says.
    pub fn cat(&mut self, input: Input) -> (r: Result<(), FlatCatError>)
        requires
            old(self).wf(),
        ensures
            exists|format: Result<Format, FlatCatError>|
                input.is_format(format) && old(self).is_outcome(
                    final(self),
                    format,
                    input.content(),
                    r,
                ),
    {
        let format = input.format();
        match InputReader::try_from(input) {
            Ok(reader) => {
                let ghost told = format;
                let r = self.cat_format(format, &reader);
                assert(input.is_format(told) && old(self).is_outcome(
                    self,
                    told,
                    input.content(),
                    r,
                ));
                r
            },
            Err(error) => Err(error),
        }
    }

    /// Flattens what `read` holds, given what was found out about its
    /// format: a document of a known format goes to the catter of that
    /// format; anything else is written plainly where the options allow it,
    /// and is refused with the error in `format` where they do not.
    pub fn cat_format(&mut self, format: Result<Format, FlatCatError>, read: &InputReader) -> (r:
        Result<(), FlatCatError>)
        requires
            old(self).wf(),
        ensures
            old(self).is_outcome(final(self), format, read@, r),
    {
        match format {
            Ok(Format::Json) => {
                let mut catter = JsonCatter::new(JsonCatterOpts::from(self.opts), &mut self.output);
                catter.cat(read)
            },
            Ok(Format::Toml) => {
                let mut catter = TomlCatter::new(&self.opts, &mut self.output);
                catter.cat(read)
            },
            Ok(Format::Yaml) => {
                let mut catter = YamlCatter::new(YamlCatterOpts::from(self.opts), &mut self.output);
                catter.cat(read)
            },
            Err(error) => {
                if self.opts.cat_plain {
                    let mut catter = PlainCatter::new(&self.opts, &mut self.output);
                    catter.cat(read)
                } else {
                    Err(error)
                }
            },
        }
    }
}

} // verus!
