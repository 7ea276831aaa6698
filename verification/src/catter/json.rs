//! JSON.

use vstd::prelude::*;

use crate::catter::{document_reading, flatten, joined, records, Catter, KeyPath, Reading};
use crate::error::FlatCatError;
use crate::input::InputReader;
use crate::node::{Node, Number, Tree};
use crate::output::{OutputWriter, Written};
use crate::FlatCatOpts;

verus! {

/// `serde_json::Value`, a parsed JSON value. Nothing inside it is looked at.
#[verifier::external_type_specification]
#[verifier::external_body]
pub struct ExJsonValue(serde_json::Value);

/// The JSON document that the bytes hold, as `serde_json` reads it, or
/// `None` where it finds none in them.
pub uninterp spec fn json_document(input: Seq<u8>) -> Option<Tree>;

/// What a value of `serde_json` holds: its scalars, a number as the text
/// that `serde_json` displays it with, the elements of an array in their
/// order, and the members of an object in the order in which its map hands
/// them out.
pub uninterp spec fn json_tree(doc: serde_json::Value) -> Tree;

/// `serde_json::de::from_reader`, on bytes in memory and for a whole
/// `serde_json::Value`: it succeeds where the bytes hold one JSON document,
/// and then returns that document.
#[verifier::external_body]
fn json_from_reader(input: &[u8]) -> (r: Result<serde_json::Value, serde_json::Error>)
    ensures
        r is Ok <==> json_document(input@) is Some,
        r matches Ok(doc) ==> json_document(input@) == Some(json_tree(doc)),
{
    serde_json::de::from_reader(input)
}

/// Takes a value of `serde_json` apart, variant by variant, into a node of
/// the same shape.
#[verifier::external_body]
fn json_node(doc: serde_json::Value) -> (node: Node)
    ensures
        node@ == json_tree(doc),
{
    match doc {
        serde_json::Value::Null => Node::Null,
        serde_json::Value::Bool(b) => Node::Bool(b),
        serde_json::Value::Number(n) => Node::Number(Number { text: n.to_string(), float: n.is_f64() }),
        serde_json::Value::String(s) => Node::String(s),
        serde_json::Value::Array(a) => Node::Array(a.into_iter().map(json_node).collect()),
        serde_json::Value::Object(o) => Node::Object(o.into_iter().map(|(k, v)| (k, json_node(v))).collect()),
    }
}

/// The options of the JSON catter. There are none.
#[derive(Debug, Clone, Copy)]
pub struct JsonCatterOpts {}

impl JsonCatterOpts {
    pub fn new() -> JsonCatterOpts {
        JsonCatterOpts {  }
    }
}

impl Default for JsonCatterOpts {
    fn default() -> JsonCatterOpts {
        JsonCatterOpts {  }
    }
}

impl From<FlatCatOpts> for JsonCatterOpts {
    fn from(opts: FlatCatOpts) -> (r: JsonCatterOpts) {
        JsonCatterOpts {  }
    }
}

impl vstd::std_specs::convert::FromSpecImpl<FlatCatOpts> for JsonCatterOpts {
    open spec fn obeys_from_spec() -> bool {
        true
    }

    open spec fn from_spec(opts: FlatCatOpts) -> JsonCatterOpts {
        JsonCatterOpts {  }
    }
}

/// The catter for JSON.
pub struct JsonCatter<'a> {
    pub opts: JsonCatterOpts,
    pub output: &'a mut OutputWriter,
}

impl<'a> JsonCatter<'a> {
    /// A catter that writes to `output`.
    pub fn new(opts: JsonCatterOpts, output: &'a mut OutputWriter) -> (catter: JsonCatter<'a>)
        ensures
            *catter.output == *old(output),
            *final(catter.output) == *final(output),
    {
        JsonCatter { opts, output }
    }

    /// Flattens a document, from the empty path.
    pub fn json(&mut self, json: Node) -> (r: Result<(), FlatCatError>)
        requires
            old(self).output.wf(),
        ensures
            r is Ok,
            final(self).output.wf(),
            final(self).output@ == old(self).output@.write_all(
                records(json@, Seq::empty(), old(self).output@.opts.colorful),
            ),
            *final(final(self).output) == *final(old(self).output),
    {
        let mut path = KeyPath::new();
        self.do_json(&mut path, json)
    }

    /// Flattens a document that hangs at `path`.
    fn do_json(&mut self, path: &mut KeyPath, json: Node) -> (r: Result<(), FlatCatError>)
        requires
            old(path).wf(),
            old(self).output.wf(),
        ensures
            r is Ok,
            final(path).wf(),
            final(path)@ == old(path)@,
            final(self).output.wf(),
            final(self).output@ == old(self).output@.write_all(
                records(json@, joined(old(path)@), old(self).output@.opts.colorful),
            ),
            *final(final(self).output) == *final(old(self).output),
    {
        flatten(&json, path, self.output);
        Ok(())
    }
}

impl<'a> Catter for JsonCatter<'a> {
    open spec fn written(&self) -> Written {
        self.output@
    }

    open spec fn wf(&self) -> bool {
        self.output.wf()
    }

    open spec fn reading(input: Seq<u8>, colorful: bool) -> Reading {
        document_reading(json_document(input), colorful)
    }

    fn cat(&mut self, read: &InputReader) -> (r: Result<(), FlatCatError>)
        ensures
            r matches Err(e) ==> e is JsonError,
            *final(final(self).output) == *final(old(self).output),
    {
        match json_from_reader(read.bytes()) {
            Ok(doc) => {
                let json = json_node(doc);
                self.json(json)
            },
            Err(source) => Err(FlatCatError::JsonError { source }),
        }
    }
}

} // verus!
