//! The inputs: what was read, and from where.

use vstd::prelude::*;
use vstd::string::*;

use crate::error::FlatCatError;
use crate::format::{is_path_guess, Format, FormatHint};
use crate::text::owned;

verus! {

/// An input: the bytes of a file together with its path, or the bytes of a
/// stream; and in both cases what the caller says about the format.
#[derive(Debug)]
pub enum Input {
    Path(String, Vec<u8>, FormatHint),
    Read(Vec<u8>, FormatHint),
}

impl Input {
    /// The input that holds what was read from the file at `path`.
    pub fn from_path(path: &str, content: Vec<u8>) -> (input: Input)
        ensures
            input matches Input::Path(p, c, hint) && p@ == path@ && c == content && hint
                == FormatHint::Empty,
    {
        Input::Path(owned(path), content, FormatHint::Empty)
    }

    /// The input that holds what was read from a stream.
    pub fn from_read(content: Vec<u8>) -> (input: Input)
        ensures
            input == Input::Read(content, FormatHint::Empty),
    {
        Input::Read(content, FormatHint::Empty)
    }

    /// The same input with another hint.
    pub fn with_format_hint(self, hint: FormatHint) -> (input: Input)
        ensures
            input == (match self {
                Input::Path(path, content, _) => Input::Path(path, content, hint),
                Input::Read(content, _) => Input::Read(content, hint),
            }),
    {
        match self {
            Input::Path(path, content, _) => Input::Path(path, content, hint),
            Input::Read(content, _) => Input::Read(content, hint),
        }
    }

    /// The hint of the input.
    pub open spec fn hint(&self) -> FormatHint {
        match self {
            Input::Path(_, _, hint) => *hint,
            Input::Read(_, hint) => *hint,
        }
    }

    /// The bytes of the input.
    pub open spec fn content(&self) -> Seq<u8> {
        match self {
            Input::Path(_, content, _) => content@,
            Input::Read(content, _) => content@,
        }
    }

    /// Whether `r` tells the format of the input: a hint decides; without
    /// one the format of a file is guessed from its path, and the format of
    /// a stream cannot be told.
    pub open spec fn is_format(&self, r: Result<Format, FlatCatError>) -> bool {
        match self {
            Input::Path(_, _, FormatHint::Hint(format)) => r == Ok::<Format, FlatCatError>(*format),
            Input::Path(path, _, FormatHint::Empty) => is_path_guess(r, path@),
            Input::Read(_, FormatHint::Hint(format)) => r == Ok::<Format, FlatCatError>(*format),
            Input::Read(_, FormatHint::Empty) => r matches Err(
                FlatCatError::UnknownFormatError { msg },
            ) && msg@ == "cannot determine format from stream"@,
        }
    }

    /// The format of the input.
    pub fn format(&self) -> (r: Result<Format, FlatCatError>)
        ensures
            self.is_format(r),
    {
        match self {
            Input::Path(_, _, FormatHint::Hint(format)) => Ok(*format),
            Input::Path(path, _, FormatHint::Empty) => Format::guess_from_file_extension(
                path.as_str(),
            ),
            Input::Read(_, FormatHint::Hint(format)) => Ok(*format),
            Input::Read(_, FormatHint::Empty) => Err(
                FlatCatError::UnknownFormatError { msg: "cannot determine format from stream" },
            ),
        }
    }
}

/// The bytes of an input, ready to be read.
#[derive(Debug)]
pub struct InputReader {
    inner: Vec<u8>,
}

impl View for InputReader {
    type V = Seq<u8>;

    closed spec fn view(&self) -> Seq<u8> {
        self.inner@
    }
}

impl InputReader {
    /// A reader of these bytes.
    pub fn new(inner: Vec<u8>) -> (reader: InputReader)
        ensures
            reader@ == inner@,
    {
        InputReader { inner }
    }

    /// The reader of an input. The bytes are at hand, so this cannot fail.
    pub fn try_from(value: Input) -> (r: Result<InputReader, FlatCatError>)
        ensures
            r matches Ok(reader) && reader@ == value.content(),
    {
        match value {
            Input::Path(_, content, _) => Ok(InputReader { inner: content }),
            Input::Read(content, _) => Ok(InputReader { inner: content }),
        }
    }

    /// The bytes.
    pub fn bytes(&self) -> (bytes: &[u8])
        ensures
            bytes@ == self@,
    {
        self.inner.as_slice()
    }
}

} // verus!
