//! YAML.

use vstd::prelude::*;

use crate::catter::{document_reading, flatten, joined, records, Catter, KeyPath, Reading};
use crate::error::FlatCatError;
use crate::input::InputReader;
use crate::node::{Node, Number, Tree};
use crate::output::{OutputWriter, Written};
use crate::text::owned;
use crate::FlatCatOpts;

verus! {

/// `serde_yaml::Value`, a parsed YAML value. Nothing inside it is looked at.
#[verifier::external_type_specification]
#[verifier::external_body]
pub struct ExYamlValue(serde_yaml::Value);

/// The YAML value that the bytes hold, as `serde_yaml` reads it, taken as a
/// document: `None` where it finds no single value in them, `Some(None)`
/// where the value has a mapping with a key that is no string.
pub uninterp spec fn yaml_document(input: Seq<u8>) -> Option<Option<Tree>>;

/// What a value of `serde_yaml` holds: its scalars, a number as the text
/// that `serde_yaml` displays it with, the elements of a sequence in their
/// order, and the members of a mapping in the order in which it hands them
/// out; `None` where a key of a mapping in it is no string.
pub uninterp spec fn yaml_tree(doc: serde_yaml::Value) -> Option<Tree>;

/// `serde_yaml::from_reader`, on bytes in memory and for a whole
/// `serde_yaml::Value`: it succeeds where the bytes hold one YAML value,
/// and then returns that value.
#[verifier::external_body]
fn yaml_from_reader(input: &[u8]) -> (r: Result<serde_yaml::Value, serde_yaml::Error>)
    ensures
        r is Ok <==> yaml_document(input@) is Some,
        r matches Ok(doc) ==> yaml_document(input@) == Some(yaml_tree(doc)),
{
    serde_yaml::from_reader(input)
}

/// Takes a value of `serde_yaml` apart, variant by variant, into a node of
/// the same shape. The key of a member has to be a string
/// (`serde_yaml::Value::as_str`); where one is not, there is no node.
#[verifier::external_body]
fn yaml_node(doc: serde_yaml::Value) -> (node: Option<Node>)
    ensures
        node matches Some(n) ==> yaml_tree(doc) == Some(n@),
        node is None ==> yaml_tree(doc) is None,
{
    match doc {
        serde_yaml::Value::Null => Some(Node::Null),
        serde_yaml::Value::Bool(b) => Some(Node::Bool(b)),
        serde_yaml::Value::Number(n) => Some(Node::Number(Number { text: n.to_string(), float: n.is_f64() })),
        serde_yaml::Value::String(s) => Some(Node::String(s)),
        serde_yaml::Value::Sequence(s) => s.into_iter().map(yaml_node).collect::<Option<_>>().map(Node::Array),
        serde_yaml::Value::Mapping(m) => m.into_iter().map(|(k, v)| Some((k.as_str()?.to_string(), yaml_node(v)?)))
            .collect::<Option<_>>().map(Node::Object),
    }
}

/// The options of the YAML catter. There are none.
#[derive(Debug, Clone, Copy)]
pub struct YamlCatterOpts {}

impl YamlCatterOpts {
    pub fn new() -> YamlCatterOpts {
        YamlCatterOpts {  }
    }
}

impl Default for YamlCatterOpts {
    fn default() -> YamlCatterOpts {
        YamlCatterOpts {  }
    }
}

impl From<FlatCatOpts> for YamlCatterOpts {
    fn from(opts: FlatCatOpts) -> (r: YamlCatterOpts) {
        YamlCatterOpts {  }
    }
}

impl vstd::std_specs::convert::FromSpecImpl<FlatCatOpts> for YamlCatterOpts {
    open spec fn obeys_from_spec() -> bool {
        true
    }

    open spec fn from_spec(opts: FlatCatOpts) -> YamlCatterOpts {
        YamlCatterOpts {  }
    }
}

/// The reading of a YAML input: the records of its document, or nothing
/// where the input holds none.
pub open spec fn yaml_reading(input: Seq<u8>, colorful: bool) -> Reading {
    match yaml_document(input) {
        Some(document) => document_reading(document, colorful),
        None => document_reading(None, colorful),
    }
}

/// The catter for YAML.
pub struct YamlCatter<'a> {
    pub opts: YamlCatterOpts,
    pub output: &'a mut OutputWriter,
}

impl<'a> YamlCatter<'a> {
    /// A catter that writes to `output`.
    pub fn new(opts: YamlCatterOpts, output: &'a mut OutputWriter) -> (catter: YamlCatter<'a>)
        ensures
            *catter.output == *old(output),
            *final(catter.output) == *final(output),
    {
        YamlCatter { opts, output }
    }

    /// Flattens a document, from the empty path.
    pub fn yaml(&mut self, yaml: Node) -> (r: Result<(), FlatCatError>)
        requires
            old(self).output.wf(),
        ensures
            r is Ok,
            final(self).output.wf(),
            final(self).output@ == old(self).output@.write_all(
                records(yaml@, Seq::empty(), old(self).output@.opts.colorful),
            ),
            *final(final(self).output) == *final(old(self).output),
    {
        let mut path = KeyPath::new();
        self.do_yaml(&mut path, yaml)
    }

    /// Flattens a document that hangs at `path`.
    fn do_yaml(&mut self, path: &mut KeyPath, yaml: Node) -> (r: Result<(), FlatCatError>)
        requires
            old(path).wf(),
            old(self).output.wf(),
        ensures
            r is Ok,
            final(path).wf(),
            final(path)@ == old(path)@,
            final(self).output.wf(),
            final(self).output@ == old(self).output@.write_all(
                records(yaml@, joined(old(path)@), old(self).output@.opts.colorful),
            ),
            *final(final(self).output) == *final(old(self).output),
    {
        flatten(&yaml, path, self.output);
        Ok(())
    }
}

impl<'a> Catter for YamlCatter<'a> {
    open spec fn written(&self) -> Written {
        self.output@
    }

    open spec fn wf(&self) -> bool {
        self.output.wf()
    }

    open spec fn reading(input: Seq<u8>, colorful: bool) -> Reading {
        yaml_reading(input, colorful)
    }

    fn cat(&mut self, read: &InputReader) -> (r: Result<(), FlatCatError>)
        ensures
            r is Err ==> (match yaml_document(read@) {
                Some(_) => r matches Err(FlatCatError::ParserError { what, to, why }) && what@
                    == "mapping key"@ && to@ == "String"@ && why@ == "not a string"@,
                None => r matches Err(e) && e is YamlError,
            }),
            *final(final(self).output) == *final(old(self).output),
    {
        match yaml_from_reader(read.bytes()) {
            Ok(doc) => match yaml_node(doc) {
                Some(yaml) => self.yaml(yaml),
                None => Err(
                    FlatCatError::ParserError {
                        what: owned("mapping key"),
                        to: "String",
                        why: owned("not a string"),
                    },
                ),
            },
            Err(source) => Err(FlatCatError::YamlError { source }),
        }
    }
}

} // verus!
