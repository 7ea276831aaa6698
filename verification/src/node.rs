//! The document model that all formats share.

use vstd::prelude::*;
use vstd::string::*;
use vstd::utf8::*;

verus! {

/// A number, kept as the text its parser gives it. `float` tells a
/// floating-point number from an integer.
#[derive(Debug)]
pub struct Number {
    pub text: String,
    pub float: bool,
}

/// Whether a character is a decimal digit.
pub open spec fn is_digit(c: char) -> bool {
    '0' <= c <= '9'
}

/// Whether a text is a whole numeral: decimal digits, at least one, with or
/// without a minus sign before them.
pub open spec fn is_whole_numeral(text: Seq<char>) -> bool {
    &&& text.len() > 0
    &&& is_digit(text.last())
    &&& forall|i: int| 0 <= i < text.len() ==> is_digit(#[trigger] text[i]) || (i == 0 && text[i] == '-')
}

/// A number as it is written: the text of its parser as it stands. Only a
/// floating-point number whose text is a whole numeral gets `.0` behind it,
/// so that a float always shows that it is one.
pub open spec fn number_text(text: Seq<char>, float: bool) -> Seq<char> {
    if float && is_whole_numeral(text) {
        text + ".0"@
    } else {
        text
    }
}

/// A floating-point number is never written like an integer: its text is
/// no whole numeral.
pub proof fn lemma_float_is_not_written_whole(text: Seq<char>)
    ensures
        !is_whole_numeral(number_text(text, true)),
{
    reveal_strlit(".0");
    if is_whole_numeral(text) {
        let written = text + ".0"@;
        assert(written[text.len() as int] == '.');
    }
}

/// Whether a text is a whole numeral.
pub fn whole_numeral(text: &str) -> (whole: bool)
    ensures
        whole == is_whole_numeral(text@),
{
    broadcast use is_ascii_chars_nat_bound;

    if !text.is_ascii() {
        return false;
    }
    let len = text.unicode_len();
    if len == 0 {
        return false;
    }
    let mut i: usize = 0;
    while i < len
        invariant
            i <= len,
            len == text@.len(),
            is_ascii_chars(text@),
            forall|j: int| 0 <= j < i ==> is_digit(#[trigger] text@[j]) || (j == 0 && text@[j] == '-'),
        decreases len - i,
    {
        let byte = text.get_ascii(i);
        if !(48 <= byte && byte <= 57) && !(i == 0 && byte == 45) {
            assert(!is_digit(text@[i as int]));
            return false;
        }
        i = i + 1;
    }
    let last = text.get_ascii(len - 1);
    assert(text@.last() == text@[len - 1]);
    48 <= last && last <= 57
}

impl Number {
    /// The number as it is written.
    pub fn written(&self) -> (text: String)
        ensures
            text@ == number_text(self.text@, self.float),
    {
        let mut text = self.text.clone();
        if self.float && whole_numeral(self.text.as_str()) {
            text.append(".0");
        }
        text
    }
}

/// A document, or a value inside one.
///
/// The members of an object stand in the order in which the object hands
/// them out; their keys are expected to differ, which is the parser's
/// matter and is not looked at here.
#[derive(Debug)]
pub enum Node {
    Null,
    Bool(bool),
    Number(Number),
    String(String),
    /// A datetime as text. Only TOML has it.
    Datetime(String),
    Array(Vec<Node>),
    Object(Vec<(String, Node)>),
}

/// What a `Node` stands for.
pub enum Tree {
    Null,
    Bool(bool),
    Number { text: Seq<char>, float: bool },
    String(Seq<char>),
    Datetime(Seq<char>),
    Array(Seq<Tree>),
    /// The keys of the members, and their values in the same order.
    Object { keys: Seq<Seq<char>>, values: Seq<Tree> },
}

impl View for Node {
    type V = Tree;

    open spec fn view(&self) -> Tree
        decreases self,
    {
        match self {
            Node::Null => Tree::Null,
            Node::Bool(b) => Tree::Bool(*b),
            Node::Number(number) => Tree::Number { text: number.text@, float: number.float },
            Node::String(text) => Tree::String(text@),
            Node::Datetime(text) => Tree::Datetime(text@),
            Node::Array(items) => Tree::Array(
                Seq::new(
                    items@.len(),
                    |i: int|
                        if 0 <= i < items@.len() {
                            items@[i]@
                        } else {
                            Tree::Null
                        },
                ),
            ),
            Node::Object(members) => Tree::Object {
                keys: Seq::new(members@.len(), |i: int| members@[i].0@),
                values: Seq::new(
                    members@.len(),
                    |i: int|
                        if 0 <= i < members@.len() {
                            members@[i].1@
                        } else {
                            Tree::Null
                        },
                ),
            },
        }
    }
}

} // verus!
