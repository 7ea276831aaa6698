//! TOML.

use vstd::prelude::*;

use crate::catter::{document_reading, flatten, joined, records, Catter, KeyPath, Reading};
use crate::error::FlatCatError;
use crate::input::InputReader;
use crate::node::{Node, Number, Tree};
use crate::output::{OutputWriter, Written};
use crate::FlatCatOpts;

verus! {

/// `toml::Value`, a parsed TOML value. Nothing inside it is looked at.
#[verifier::external_type_specification]
#[verifier::external_body]
pub struct ExTomlValue(toml::Value);

/// The TOML document that the bytes hold, as `toml` reads it, or `None`
/// where it finds none in them.
pub uninterp spec fn toml_document(input: Seq<u8>) -> Option<Tree>;

/// What a value of `toml` holds: its scalars, an integer or a datetime as
/// the text that it is displayed with, a float as the text that `toml`
/// displays a float value with, the elements of an array in their order, and
/// the members of a table in the order in which its map hands them out.
pub uninterp spec fn toml_tree(doc: toml::Value) -> Tree;

/// `toml::from_slice`, for a whole `toml::Value`: it succeeds where the
/// bytes hold a TOML document, and then returns that document.
#[verifier::external_body]
fn toml_from_slice(input: &[u8]) -> (r: Result<toml::Value, toml::de::Error>)
    ensures
        r is Ok <==> toml_document(input@) is Some,
        r matches Ok(doc) ==> toml_document(input@) == Some(toml_tree(doc)),
{
    toml::from_slice(input)
}

/// Takes a value of `toml` apart, variant by variant, into a node of the
/// same shape.
#[verifier::external_body]
fn toml_node(doc: toml::Value) -> (node: Node)
    ensures
        node@ == toml_tree(doc),
{
    match doc {
        toml::Value::Boolean(b) => Node::Bool(b),
        toml::Value::Integer(x) => Node::Number(Number { text: x.to_string(), float: false }),
        float @ toml::Value::Float(_) => Node::Number(Number { text: float.to_string(), float: true }),
        toml::Value::String(s) => Node::String(s),
        toml::Value::Datetime(d) => Node::Datetime(d.to_string()),
        toml::Value::Array(a) => Node::Array(a.into_iter().map(toml_node).collect()),
        toml::Value::Table(t) => Node::Object(t.into_iter().map(|(k, v)| (k, toml_node(v))).collect()),
    }
}

/// The catter for TOML.
pub struct TomlCatter<'a> {
    pub opts: &'a FlatCatOpts,
    pub output: &'a mut OutputWriter,
}

impl<'a> TomlCatter<'a> {
    /// A catter that writes to `output`.
    pub fn new<'b>(opts: &'b FlatCatOpts, output: &'b mut OutputWriter) -> (catter: TomlCatter<'b>)
        ensures
            catter.opts == opts,
            *catter.output == *old(output),
            *final(catter.output) == *final(output),
    {
        TomlCatter { opts, output }
    }

    /// Flattens a document, from the empty path.
    pub fn toml(&mut self, toml: Node) -> (r: Result<(), FlatCatError>)
        requires
            old(self).output.wf(),
        ensures
            r is Ok,
            final(self).output.wf(),
            final(self).output@ == old(self).output@.write_all(
                records(toml@, Seq::empty(), old(self).output@.opts.colorful),
            ),
            *final(final(self).output) == *final(old(self).output),
    {
        let mut path = KeyPath::new();
        self.do_toml(&mut path, toml)
    }

    /// Flattens a document that hangs at `path`.
    fn do_toml(&mut self, path: &mut KeyPath, toml: Node) -> (r: Result<(), FlatCatError>)
        requires
            old(path).wf(),
            old(self).output.wf(),
        ensures
            r is Ok,
            final(path).wf(),
            final(path)@ == old(path)@,
            final(self).output.wf(),
            final(self).output@ == old(self).output@.write_all(
                records(toml@, joined(old(path)@), old(self).output@.opts.colorful),
            ),
            *final(final(self).output) == *final(old(self).output),
    {
        flatten(&toml, path, self.output);
        Ok(())
    }
}

impl<'a> Catter for TomlCatter<'a> {
    open spec fn written(&self) -> Written {
        self.output@
    }

    open spec fn wf(&self) -> bool {
        self.output.wf()
    }

    open spec fn reading(input: Seq<u8>, colorful: bool) -> Reading {
        document_reading(toml_document(input), colorful)
    }

    fn cat(&mut self, read: &InputReader) -> (r: Result<(), FlatCatError>)
        ensures
            r matches Err(e) ==> e is TomlError,
            *final(final(self).output) == *final(old(self).output),
    {
        match toml_from_slice(read.bytes()) {
            Ok(doc) => {
                let toml = toml_node(doc);
                self.toml(toml)
            },
            Err(source) => Err(FlatCatError::TomlError { source }),
        }
    }
}

} // verus!
