//! The walkers that flatten a document, and the path builder they share.

use vstd::prelude::*;
use vstd::string::*;
use vstd::utf8::*;

pub use crate::catter::json::JsonCatter;
pub use crate::catter::plain::PlainCatter;
pub use crate::catter::toml::TomlCatter;
pub use crate::catter::yaml::YamlCatter;
use crate::error::FlatCatError;
use crate::input::InputReader;
use crate::node::{number_text, Node, Tree};
use crate::output::{
    array_segment, lemma_write_all_concat, lemma_write_all_one, lemma_write_all_opts, Leaf,
    OutputWriter, Record, Written,
};
use crate::text::{lemma_char_boundary_at_concat, lemma_encode_utf8_concat, lemma_encode_utf8_injective};

pub mod json;
pub mod plain;
pub mod toml;
pub mod yaml;

verus! {

/// What a catter makes of an input: the records that it hands to the
/// renderer, and whether it came to the end of the input without an error.
pub struct Reading {
    pub records: Seq<Record>,
    pub complete: bool,
}

/// The reading of a document, where there is one: all its records. Where
/// the input holds no document, nothing is written.
pub open spec fn document_reading(document: Option<Tree>, colorful: bool) -> Reading {
    match document {
        Some(tree) => Reading { records: records(tree, Seq::empty(), colorful), complete: true },
        None => Reading { records: Seq::empty(), complete: false },
    }
}

/// A catter reads an input of one format and writes its lines to the
/// renderer it was made with.
pub trait Catter {
    /// The state of the renderer.
    spec fn written(&self) -> Written;

    /// Whether the renderer is well formed.
    spec fn wf(&self) -> bool;

    /// What the catter makes of an input. Array segments of paths are
    /// painted where `colorful` holds.
    spec fn reading(input: Seq<u8>, colorful: bool) -> Reading;

    /// Reads the input and hands its records to the renderer, in order. What
    /// was written before an error stays written.
    fn cat(&mut self, read: &InputReader) -> (r: Result<(), FlatCatError>)
        requires
            old(self).wf(),
        ensures
            final(self).wf(),
            final(self).written() == old(self).written().write_all(
                Self::reading(read@, old(self).written().opts.colorful).records,
            ),
            r is Ok <==> Self::reading(read@, old(self).written().opts.colorful).complete,
    ;
}

/// `String::truncate`: cuts the string to its first `new_len` bytes, and
/// leaves it alone where it is no longer than that. `new_len` has to lie on
/// a character boundary.
pub assume_specification[ std::string::String::truncate ](s: &mut std::string::String, new_len: usize)
    requires
        new_len <= encode_utf8(old(s)@).len() ==> is_char_boundary(
            encode_utf8(old(s)@),
            new_len as int,
        ),
    ensures
        new_len >= encode_utf8(old(s)@).len() ==> final(s)@ == old(s)@,
        new_len <= encode_utf8(old(s)@).len() ==> encode_utf8(final(s)@) == encode_utf8(
            old(s)@,
        ).subrange(0, new_len as int),
;

/// `String::with_capacity`: an empty string, with room for `capacity` bytes.
pub assume_specification[ std::string::String::with_capacity ](capacity: usize) -> (s: std::string::String)
    requires
        capacity <= isize::MAX,
    ensures
        s@ == Seq::<char>::empty(),
;

/// The character that stands before the key of an object member.
pub open spec fn key_separator() -> Seq<char> {
    seq!['.']
}

/// The segments of a path, one after the other.
pub open spec fn joined(segments: Seq<Seq<char>>) -> Seq<char>
    decreases segments.len(),
{
    if segments.len() == 0 {
        Seq::empty()
    } else {
        joined(segments.drop_last()) + segments.last()
    }
}

/// The place of a traversal in a document: the path from the root, kept as
/// one string, and the length of each segment that was pushed and not yet
/// popped.
///
/// Its view is the stack of those segments, the separator included where a
/// segment has one; the path is their concatenation.
pub struct KeyPath {
    path: String,
    elements: Vec<usize>,
    segments: Ghost<Seq<Seq<char>>>,
}

impl View for KeyPath {
    type V = Seq<Seq<char>>;

    closed spec fn view(&self) -> Seq<Seq<char>> {
        self.segments@
    }
}

impl KeyPath {
    /// The string is the concatenation of the segments, and each recorded
    /// length is the length in bytes of its segment.
    pub closed spec fn wf(&self) -> bool {
        &&& self.path@ == joined(self.segments@)
        &&& self.elements@.len() == self.segments@.len()
        &&& forall|i: int|
            0 <= i < self.elements@.len() ==> self.elements@[i] == encode_utf8(
                #[trigger] self.segments@[i],
            ).len()
    }

    /// An empty path.
    pub fn new() -> (path: KeyPath)
        ensures
            path.wf(),
            path@ == Seq::<Seq<char>>::empty(),
    {
        KeyPath::new_with_capacity(1024)
    }

    /// An empty path whose string has room for `capacity` bytes.
    pub fn new_with_capacity(capacity: usize) -> (path: KeyPath)
        requires
            capacity <= isize::MAX,
        ensures
            path.wf(),
            path@ == Seq::<Seq<char>>::empty(),
    {
        let path = String::with_capacity(capacity);
        KeyPath { path, elements: Vec::new(), segments: Ghost(Seq::empty()) }
    }

    /// Enters the object member `key`: the segment is the separator and the key.
    pub fn push(&mut self, key: &str)
        requires
            old(self).wf(),
        ensures
            final(self).wf(),
            final(self)@ == stepped(old(self)@, PathStep::Push(key_separator() + key@)),
    {
        proof {
            reveal_strlit(".");
        }
        let before = self.path.as_str().as_bytes().len();
        self.path.append(".");
        self.path.append(key);
        let after = self.path.as_str().as_bytes().len();
        let ghost segment = key_separator() + key@;
        proof {
            assert("."@ =~= key_separator());
            assert(self.path@ =~= old(self).path@ + segment);
            lemma_encode_utf8_concat(old(self).path@, segment);
        }
        self.elements.push(after - before);
        self.segments = Ghost(self.segments@.push(segment));
        proof {
            assert(self.segments@.drop_last() =~= old(self).segments@);
        }
    }

    /// Enters an array element: the segment is `key` as it stands, with no
    /// separator before it.
    pub fn push_no_sep(&mut self, key: &str)
        requires
            old(self).wf(),
        ensures
            final(self).wf(),
            final(self)@ == stepped(old(self)@, PathStep::Push(key@)),
    {
        let before = self.path.as_str().as_bytes().len();
        self.path.append(key);
        let after = self.path.as_str().as_bytes().len();
        proof {
            lemma_encode_utf8_concat(old(self).path@, key@);
        }
        self.elements.push(after - before);
        self.segments = Ghost(self.segments@.push(key@));
        proof {
            assert(self.segments@.drop_last() =~= old(self).segments@);
        }
    }

    /// Leaves the segment that was pushed last. On an empty path nothing
    /// happens.
    pub fn pop(&mut self)
        requires
            old(self).wf(),
        ensures
            final(self).wf(),
            final(self)@ == stepped(old(self)@, PathStep::Pop),
    {
        if let Some(key_len) = self.elements.pop() {
            let ghost rest = old(self).segments@.drop_last();
            let ghost last = old(self).segments@.last();
            proof {
                lemma_encode_utf8_concat(joined(rest), last);
                lemma_char_boundary_at_concat(joined(rest), last);
            }
            let len = self.path.as_str().as_bytes().len();
            self.path.truncate(len - key_len);
            self.segments = Ghost(rest);
            proof {
                assert(encode_utf8(self.path@) =~= encode_utf8(joined(rest)));
                lemma_encode_utf8_injective(self.path@, joined(rest));
            }
        }
    }

    /// The path as it stands.
    pub fn path(&self) -> (path: &str)
        requires
            self.wf(),
        ensures
            path@ == joined(self@),
    {
        self.path.as_str()
    }

    /// The path as it stands, as a string of its own.
    pub fn to_string(&self) -> (path: String)
        requires
            self.wf(),
        ensures
            path@ == joined(self@),
    {
        self.path.clone()
    }
}

/// The records of a document that hangs at `path`: its leaves from first to
/// last, each with the path that leads to it. An array or object without
/// members has none.
pub open spec fn records(tree: Tree, path: Seq<char>, colorful: bool) -> Seq<Record>
    decreases tree,
{
    match tree {
        Tree::Null => seq![Record { path, leaf: Leaf::Null }],
        Tree::Bool(b) => seq![Record { path, leaf: Leaf::Bool(b) }],
        Tree::Number { text, float } => seq![
            Record { path, leaf: Leaf::Number(number_text(text, float)) },
        ],
        Tree::String(text) => seq![Record { path, leaf: Leaf::String(text) }],
        Tree::Datetime(text) => seq![Record { path, leaf: Leaf::Datetime(text) }],
        Tree::Array(items) => array_records(items, items.len(), path, colorful),
        Tree::Object { keys, values } => object_records(keys, values, values.len(), path, colorful),
    }
}

/// The records of the first `count` elements of an array at `path`. The
/// element `i` hangs at the path with the index segment of `i` behind it.
pub open spec fn array_records(items: Seq<Tree>, count: nat, path: Seq<char>, colorful: bool) -> Seq<
    Record,
>
    decreases items, count,
{
    if count == 0 || count > items.len() {
        Seq::empty()
    } else {
        array_records(items, (count - 1) as nat, path, colorful) + records(
            items[count - 1],
            path + array_segment(colorful, (count - 1) as nat),
            colorful,
        )
    }
}

/// The records of the first `count` members of an object at `path`. A member
/// hangs at the path with the separator and its key behind it.
pub open spec fn object_records(
    keys: Seq<Seq<char>>,
    values: Seq<Tree>,
    count: nat,
    path: Seq<char>,
    colorful: bool,
) -> Seq<Record>
    decreases values, count,
{
    if count == 0 || count > values.len() {
        Seq::empty()
    } else {
        object_records(keys, values, (count - 1) as nat, path, colorful) + records(
            values[count - 1],
            path + (key_separator() + keys[count - 1]),
            colorful,
        )
    }
}

/// Pushing a segment appends it to the path.
pub proof fn lemma_joined_push(segments: Seq<Seq<char>>, segment: Seq<char>)
    ensures
        joined(segments.push(segment)) == joined(segments) + segment,
        segments.push(segment).drop_last() == segments,
{
    assert(segments.push(segment).drop_last() =~= segments);
}

/// Walks a document depth first and hands each leaf to the renderer, with
/// the path that leads to it: the elements of an array in the order of
/// their indices, the members of an object in the order in which it holds
/// them. The path is left as it was found.
pub fn flatten(node: &Node, path: &mut KeyPath, output: &mut OutputWriter)
    requires
        old(path).wf(),
        old(output).wf(),
    ensures
        final(path).wf(),
        final(path)@ == old(path)@,
        final(output).wf(),
        final(output)@ == old(output)@.write_all(
            records(node@, joined(old(path)@), old(output)@.opts.colorful),
        ),
    decreases node,
{
    let ghost base = path@;
    let ghost start = output@;
    let ghost colorful = output@.opts.colorful;
    match node {
        Node::Null => {
            output.null(path.path());
            proof {
                lemma_write_all_one(start, Record { path: joined(base), leaf: Leaf::Null });
            }
        },
        Node::Bool(b) => {
            output.bool(path.path(), *b);
            proof {
                lemma_write_all_one(start, Record { path: joined(base), leaf: Leaf::Bool(*b) });
            }
        },
        Node::Number(number) => {
            let text = number.written();
            output.number(path.path(), text.as_str());
            proof {
                lemma_write_all_one(
                    start,
                    Record { path: joined(base), leaf: Leaf::Number(text@) },
                );
            }
        },
        Node::String(text) => {
            output.string(path.path(), text.as_str());
            proof {
                lemma_write_all_one(start, Record { path: joined(base), leaf: Leaf::String(text@) });
            }
        },
        Node::Datetime(text) => {
            output.datetime(path.path(), text.as_str());
            proof {
                lemma_write_all_one(
                    start,
                    Record { path: joined(base), leaf: Leaf::Datetime(text@) },
                );
            }
        },
        Node::Array(items) => {
            let ghost trees = node@->Array_0;
            let mut i: usize = 0;
            while i < items.len()
                invariant
                    i <= items.len(),
                    node == Node::Array(*items),
                    trees == node@->Array_0,
                    trees.len() == items@.len(),
                    path.wf(),
                    path@ == base,
                    output.wf(),
                    colorful == start.opts.colorful,
                    output@ == start.write_all(
                        array_records(trees, i as nat, joined(base), colorful),
                    ),
                decreases items.len() - i,
            {
                let ghost before = array_records(trees, i as nat, joined(base), colorful);
                proof {
                    lemma_write_all_opts(start, before);
                }
                let key = output.array(i);
                path.push_no_sep(key.as_str());
                proof {
                    lemma_joined_push(base, key@);
                }
                flatten(&items[i], path, output);
                path.pop();
                proof {
                    let inner = records(trees[i as int], joined(base) + key@, colorful);
                    assert(trees[i as int] == items@[i as int]@);
                    lemma_write_all_concat(start, before, inner);
                }
                i = i + 1;
            }
        },
        Node::Object(members) => {
            let ghost keys = node@->keys;
            let ghost values = node@->values;
            let mut i: usize = 0;
            while i < members.len()
                invariant
                    i <= members.len(),
                    node == Node::Object(*members),
                    keys == node@->keys,
                    values == node@->values,
                    values.len() == members@.len(),
                    path.wf(),
                    path@ == base,
                    output.wf(),
                    colorful == start.opts.colorful,
                    output@ == start.write_all(
                        object_records(keys, values, i as nat, joined(base), colorful),
                    ),
                decreases members.len() - i,
            {
                let ghost before = object_records(keys, values, i as nat, joined(base), colorful);
                proof {
                    lemma_write_all_opts(start, before);
                }
                let member = &members[i];
                path.push(member.0.as_str());
                proof {
                    lemma_joined_push(base, key_separator() + member.0@);
                }
                flatten(&member.1, path, output);
                path.pop();
                proof {
                    let inner = records(
                        values[i as int],
                        joined(base) + (key_separator() + member.0@),
                        colorful,
                    );
                    assert(keys[i as int] == members@[i as int].0@);
                    assert(values[i as int] == members@[i as int].1@);
                    lemma_write_all_concat(start, before, inner);
                }
                i = i + 1;
            }
        },
    }
}

/// One step of a traversal: into a segment, or out of the last one.
pub enum PathStep {
    Push(Seq<char>),
    Pop,
}

/// The segments after a step: `push` and `push_no_sep` put their segment on
/// top, `pop` takes the top away, and leaves an empty path alone.
pub open spec fn stepped(segments: Seq<Seq<char>>, step: PathStep) -> Seq<Seq<char>> {
    match step {
        PathStep::Push(segment) => segments.push(segment),
        PathStep::Pop => if segments.len() > 0 {
            segments.drop_last()
        } else {
            segments
        },
    }
}

/// The segments after a run of steps.
pub open spec fn walked(segments: Seq<Seq<char>>, steps: Seq<PathStep>) -> Seq<Seq<char>>
    decreases steps.len(),
{
    if steps.len() == 0 {
        segments
    } else {
        stepped(walked(segments, steps.drop_last()), steps.last())
    }
}

/// How much deeper a run of steps leads: its pushes less its pops.
pub open spec fn descent(steps: Seq<PathStep>) -> int
    decreases steps.len(),
{
    if steps.len() == 0 {
        0
    } else {
        descent(steps.drop_last()) + (match steps.last() {
            PathStep::Push(_) => 1int,
            PathStep::Pop => -1int,
        })
    }
}

/// Whether each pop of the run answers a push of the run: at no point were
/// more segments popped than pushed.
pub open spec fn never_rises(steps: Seq<PathStep>) -> bool {
    forall|k: int| 0 <= k <= steps.len() ==> descent(#[trigger] steps.take(k)) >= 0
}

/// Whether the run is made of matched pushes and pops: each pop answers a
/// push, and no push is left unanswered.
pub open spec fn matched(steps: Seq<PathStep>) -> bool {
    never_rises(steps) && descent(steps) == 0
}

/// A run of steps in which each pop answers a push leaves the segments it
/// started from in place, below those it pushed and did not pop.
pub proof fn lemma_walked_keeps_base(segments: Seq<Seq<char>>, steps: Seq<PathStep>)
    requires
        never_rises(steps),
    ensures
        walked(segments, steps).len() == segments.len() + descent(steps),
        walked(segments, steps).take(segments.len() as int) == segments,
    decreases steps.len(),
{
    if steps.len() == 0 {
        assert(segments.take(segments.len() as int) =~= segments);
    } else {
        let before = steps.drop_last();
        assert forall|k: int| 0 <= k <= before.len() implies descent(#[trigger] before.take(k))
            >= 0 by {
            assert(before.take(k) =~= steps.take(k));
        }
        lemma_walked_keeps_base(segments, before);
        assert(steps.take(steps.len() as int) =~= steps);
        assert(before.take(before.len() as int) =~= before);
        let mid = walked(segments, before);
        let after = walked(segments, steps);
        assert(after.take(segments.len() as int) =~= mid.take(segments.len() as int));
    }
}

/// After a run of matched pushes and pops the path is what it was before
/// the run: the same segments, and so the same string.
pub proof fn lemma_matched_steps_restore_path(segments: Seq<Seq<char>>, steps: Seq<PathStep>)
    requires
        matched(steps),
    ensures
        walked(segments, steps) == segments,
        joined(walked(segments, steps)) == joined(segments),
{
    lemma_walked_keeps_base(segments, steps);
    assert(walked(segments, steps).take(segments.len() as int) =~= walked(segments, steps));
}

/// A pop on the empty path changes nothing.
pub proof fn lemma_pop_on_empty_path()
    ensures
        stepped(Seq::empty(), PathStep::Pop) == Seq::<Seq<char>>::empty(),
{
}

/// An array or an object without members has no record.
pub proof fn lemma_empty_containers_have_no_records(path: Seq<char>, colorful: bool)
    ensures
        records(Tree::Array(Seq::empty()), path, colorful) == Seq::<Record>::empty(),
        records(Tree::Object { keys: Seq::empty(), values: Seq::empty() }, path, colorful)
            == Seq::<Record>::empty(),
{
}

/// A document that is one scalar has one record, at the path of the
/// document: at the empty path where it is the whole input.
pub proof fn lemma_scalar_has_one_record(tree: Tree, path: Seq<char>, colorful: bool)
    requires
        !(tree is Array),
        !(tree is Object),
    ensures
        records(tree, path, colorful).len() == 1,
        records(tree, path, colorful)[0].path == path,
{
}

} // verus!
