//! The renderer: it turns each leaf of a document into one line of output.

use vstd::prelude::*;
use vstd::string::*;

use crate::error::FlatCatError;
use crate::style::{painted, push_painted, Kind};
use crate::text::{decimal, decimal_len, push_decimal, right_aligned, spaces};

verus! {

/// How the output looks.
#[derive(Debug, Clone, Copy, PartialEq, Eq, Structural)]
pub struct OutputOpts {
    /// Whether values are written in colour.
    pub colorful: bool,
    /// Whether a `null` gets a line.
    pub null: bool,
    /// Whether strings stand in double quotes.
    pub quotes: bool,
    /// Whether each line starts with its number.
    pub numbers: bool,
    /// Whether each line ends in a `$`.
    pub end_of_line: bool,
}

impl Default for OutputOpts {
    fn default() -> (opts: OutputOpts)
        ensures
            opts == (OutputOpts {
                colorful: true,
                null: true,
                quotes: true,
                numbers: false,
                end_of_line: false,
            }),
    {
        OutputOpts { colorful: true, null: true, quotes: true, numbers: false, end_of_line: false }
    }
}

impl OutputOpts {
    /// Colours, nulls and quotes; no line numbers and no end-of-line marks.
    pub fn new() -> (opts: OutputOpts)
        ensures
            opts == (OutputOpts {
                colorful: true,
                null: true,
                quotes: true,
                numbers: false,
                end_of_line: false,
            }),
    {
        OutputOpts { colorful: true, null: true, quotes: true, numbers: false, end_of_line: false }
    }

    pub fn with_color(self, colorful: bool) -> (opts: OutputOpts)
        ensures
            opts == (OutputOpts { colorful, ..self }),
    {
        OutputOpts { colorful, ..self }
    }

    pub fn with_quotes(self, quotes: bool) -> (opts: OutputOpts)
        ensures
            opts == (OutputOpts { quotes, ..self }),
    {
        OutputOpts { quotes, ..self }
    }

    pub fn with_null(self, null: bool) -> (opts: OutputOpts)
        ensures
            opts == (OutputOpts { null, ..self }),
    {
        OutputOpts { null, ..self }
    }

    pub fn with_numbers(self, numbers: bool) -> (opts: OutputOpts)
        ensures
            opts == (OutputOpts { numbers, ..self }),
    {
        OutputOpts { numbers, ..self }
    }

    pub fn with_end_of_lines(self, end_of_line: bool) -> (opts: OutputOpts)
        ensures
            opts == (OutputOpts { end_of_line, ..self }),
    {
        OutputOpts { end_of_line, ..self }
    }
}

/// Where the lines go: a writer, which holds the lines that were written to
/// it, or the standard output.
#[derive(Debug)]
pub enum Output {
    Write(Vec<String>, OutputOpts),
    StdOut(OutputOpts),
}

impl Output {
    /// Output into `writer`, after the lines that it holds already.
    pub fn from_writer(writer: Vec<String>, opts: OutputOpts) -> (output: Output)
        ensures
            output == Output::Write(writer, opts),
    {
        Output::Write(writer, opts)
    }

    /// Output to the standard output.
    pub fn from_stdout(opts: OutputOpts) -> (output: Output)
        ensures
            output == Output::StdOut(opts),
    {
        Output::StdOut(opts)
    }
}

/// The value of a leaf, as the renderer takes it.
pub enum Leaf {
    Null,
    Bool(bool),
    Datetime(Seq<char>),
    Number(Seq<char>),
    String(Seq<char>),
    Special(Seq<char>),
    /// A line of text that belongs to no document; it is written without a path.
    Plain(Seq<char>),
}

/// A leaf and the path that leads to it.
pub struct Record {
    pub path: Seq<char>,
    pub leaf: Leaf,
}

/// The text of each line of `texts`.
pub open spec fn views(texts: Seq<String>) -> Seq<Seq<char>> {
    Seq::new(texts.len(), |i: int| texts[i]@)
}

/// What stands before the path: nothing, or the line's number, painted,
/// right-aligned in five columns and followed by two spaces.
pub open spec fn number_prefix(numbers: bool, colorful: bool, number: nat) -> Seq<char> {
    if numbers {
        painted(colorful, Kind::ValueCount, right_aligned(decimal(number), 5)) + "  "@
    } else {
        Seq::empty()
    }
}

/// What stands before the newline: nothing, or the end-of-line mark.
pub open spec fn eol_suffix(end_of_line: bool) -> Seq<char> {
    if end_of_line {
        "$"@
    } else {
        ""@
    }
}

/// The line of a value `text` of some kind at `path`.
pub open spec fn leaf_line(opts: OutputOpts, number: nat, kind: Kind, path: Seq<char>, text: Seq<char>) -> Seq<char> {
    number_prefix(opts.numbers, opts.colorful, number) + path + ": "@ + painted(
        opts.colorful,
        kind,
        text,
    ) + eol_suffix(opts.end_of_line) + "\n"@
}

/// The line of a text without structure: the same, without path and colon.
pub open spec fn plain_line(opts: OutputOpts, number: nat, text: Seq<char>) -> Seq<char> {
    number_prefix(opts.numbers, opts.colorful, number) + painted(opts.colorful, Kind::Plain, text)
        + eol_suffix(opts.end_of_line) + "\n"@
}

/// The text of a boolean.
pub open spec fn bool_text(b: bool) -> Seq<char> {
    if b {
        "true"@
    } else {
        "false"@
    }
}

/// A string as it is written: as it stands, with no escaping, between
/// double quotes where `quotes` asks for them.
pub open spec fn quoted(quotes: bool, text: Seq<char>) -> Seq<char> {
    if quotes {
        "\""@ + text + "\""@
    } else {
        text
    }
}

/// The brackets, painted, around the decimal index: the path segment of
/// the array element `index`.
pub open spec fn array_segment(colorful: bool, index: nat) -> Seq<char> {
    painted(colorful, Kind::Array, "["@) + decimal(index) + painted(colorful, Kind::Array, "]"@)
}

/// Whether a record gets a line: all do, but a `null` where nulls are left out.
pub open spec fn is_written(opts: OutputOpts, record: Record) -> bool {
    record.leaf is Null ==> opts.null
}

/// The line of a record that carries the number `number`.
pub open spec fn line(opts: OutputOpts, number: nat, record: Record) -> Seq<char> {
    match record.leaf {
        Leaf::Null => leaf_line(opts, number, Kind::Special, record.path, "null"@),
        Leaf::Bool(b) => leaf_line(opts, number, Kind::Bool, record.path, bool_text(b)),
        Leaf::Datetime(text) => leaf_line(opts, number, Kind::Datetime, record.path, text),
        Leaf::Number(text) => leaf_line(opts, number, Kind::Number, record.path, text),
        Leaf::String(text) => leaf_line(
            opts,
            number,
            Kind::String,
            record.path,
            quoted(opts.quotes, text),
        ),
        Leaf::Special(text) => leaf_line(opts, number, Kind::Special, record.path, text),
        Leaf::Plain(text) => plain_line(opts, number, text),
    }
}

/// The state of a renderer: its options, the lines it has written, and how
/// many of them it has counted since the count was last reset. The next
/// line carries the number `count + 1`.
pub struct Written {
    pub opts: OutputOpts,
    pub lines: Seq<Seq<char>>,
    pub count: nat,
}

impl Written {
    /// The state after one more line.
    pub open spec fn push_line(self, line: Seq<char>) -> Written {
        Written { opts: self.opts, lines: self.lines.push(line), count: self.count + 1 }
    }

    /// The state after a record was handed to the renderer.
    pub open spec fn write(self, record: Record) -> Written {
        if is_written(self.opts, record) {
            self.push_line(line(self.opts, self.count + 1, record))
        } else {
            self
        }
    }

    /// The state after the records were handed to the renderer, in order.
    pub open spec fn write_all(self, records: Seq<Record>) -> Written
        decreases records.len(),
    {
        if records.len() == 0 {
            self
        } else {
            self.write_all(records.drop_last()).write(records.last())
        }
    }
}

/// Writing two runs of records one after the other is writing their
/// concatenation.
pub proof fn lemma_write_all_concat(state: Written, first: Seq<Record>, second: Seq<Record>)
    ensures
        state.write_all(first + second) == state.write_all(first).write_all(second),
    decreases second.len(),
{
    if second.len() == 0 {
        assert(first + second =~= first);
    } else {
        assert((first + second).drop_last() =~= first + second.drop_last());
        assert((first + second).last() == second.last());
        lemma_write_all_concat(state, first, second.drop_last());
    }
}

/// Writing changes no option.
pub proof fn lemma_write_all_opts(state: Written, records: Seq<Record>)
    ensures
        state.write_all(records).opts == state.opts,
    decreases records.len(),
{
    if records.len() > 0 {
        lemma_write_all_opts(state, records.drop_last());
    }
}

/// Writing one record is writing the run that holds just that record.
pub proof fn lemma_write_all_one(state: Written, record: Record)
    ensures
        state.write_all(seq![record]) == state.write(record),
{
    assert(seq![record].drop_last() =~= Seq::<Record>::empty());
    assert(state.write_all(seq![record].drop_last()) == state);
}

/// The records of a run that get a line, in order.
pub open spec fn shown(opts: OutputOpts, records: Seq<Record>) -> Seq<Record>
    decreases records.len(),
{
    if records.len() == 0 {
        Seq::empty()
    } else if is_written(opts, records.last()) {
        shown(opts, records.drop_last()).push(records.last())
    } else {
        shown(opts, records.drop_last())
    }
}

/// Numbering: writing a run of records adds one line for each record that
/// gets a line, behind the lines that were there, and the n-th of the new
/// lines carries the n-th number after the count, however deep in the
/// document its record lies. On a renderer that has counted nothing the
/// n-th line carries the number n.
pub proof fn lemma_numbering(state: Written, records: Seq<Record>)
    ensures
        state.write_all(records).opts == state.opts,
        state.write_all(records).count == state.count + shown(state.opts, records).len(),
        state.write_all(records).lines.len() == state.lines.len() + shown(
            state.opts,
            records,
        ).len(),
        forall|i: int|
            0 <= i < state.lines.len() ==> state.write_all(records).lines[i] == state.lines[i],
        forall|n: int|
            0 <= n < shown(state.opts, records).len() ==> #[trigger] state.write_all(
                records,
            ).lines[state.lines.len() + n] == line(
                state.opts,
                (state.count + 1 + n) as nat,
                shown(state.opts, records)[n],
            ),
    decreases records.len(),
{
    if records.len() > 0 {
        lemma_numbering(state, records.drop_last());
    }
}

/// A line of text that is written without numbers and end-of-line marks is
/// the text as it stands, and a newline, with colours on or off: a plain
/// line has no styling.
pub proof fn lemma_plain_line_verbatim(opts: OutputOpts, number: nat, text: Seq<char>)
    requires
        !opts.numbers,
        !opts.end_of_line,
    ensures
        line(opts, number, Record { path: Seq::empty(), leaf: Leaf::Plain(text) }) == text + "\n"@,
{
    reveal_strlit("");
    assert(""@ =~= Seq::<char>::empty());
    assert(Seq::<char>::empty() + text + ""@ + "\n"@ =~= text + "\n"@);
}

/// Where nulls are left out, a `null` changes nothing: no line, and no
/// number used up.
pub proof fn lemma_null_left_out(state: Written, path: Seq<char>)
    requires
        !state.opts.null,
    ensures
        state.write(Record { path, leaf: Leaf::Null }) == state,
{
}

/// The number in front of a line, as `number_prefix` says.
pub fn prefix(numbers: bool, colorful: bool, value_counter: usize) -> (prefix: String)
    ensures
        prefix@ == number_prefix(numbers, colorful, value_counter as nat),
{
    if !numbers {
        return String::new();
    }
    let len = decimal_len(value_counter);
    let mut numeral = String::new();
    let mut width: usize = len;
    while width < 5
        invariant
            len <= width,
            len < 5 ==> width <= 5,
            len >= 5 ==> width == len,
            numeral@ == spaces((width - len) as nat),
        decreases 5 - width,
    {
        proof {
            reveal_strlit(" ");
        }
        numeral.append(" ");
        width = width + 1;
        assert(numeral@ =~= spaces((width - len) as nat));
    }
    let ghost padding = numeral@;
    push_decimal(&mut numeral, value_counter);
    proof {
        let digits = decimal(value_counter as nat);
        if len >= 5 {
            assert(padding =~= Seq::<char>::empty());
            assert(numeral@ =~= digits);
        } else {
            assert(padding == spaces((5 - digits.len()) as nat));
        }
    }
    let mut prefix = String::new();
    push_painted(&mut prefix, colorful, Kind::ValueCount, numeral.as_str());
    prefix.append("  ");
    assert(prefix@ =~= number_prefix(numbers, colorful, value_counter as nat));
    prefix
}

/// The mark at the end of a line, as `eol_suffix` says.
pub fn suffix(end_of_line: bool) -> (suffix: &'static str)
    ensures
        suffix@ == eol_suffix(end_of_line),
{
    if end_of_line {
        "$"
    } else {
        ""
    }
}

/// The renderer. It holds what it has written.
#[derive(Debug)]
pub struct OutputWriter {
    inner: Vec<String>,
    opts: OutputOpts,
    value_counter: usize,
}

impl View for OutputWriter {
    type V = Written;

    closed spec fn view(&self) -> Written {
        Written { opts: self.opts, lines: views(self.inner@), count: self.value_counter as nat }
    }
}

impl OutputWriter {
    /// No more lines were counted than were written.
    pub closed spec fn wf(&self) -> bool {
        self.value_counter <= self.inner@.len()
    }

    /// A renderer that writes after the lines of `inner`. Whether it writes
    /// colours is its own matter: no switch outside it is touched.
    pub fn from_writer(inner: Vec<String>, opts: OutputOpts) -> (writer: OutputWriter)
        ensures
            writer.wf(),
            writer@ == (Written { opts, lines: views(inner@), count: 0 }),
    {
        OutputWriter { inner, opts, value_counter: 0 }
    }

    /// The renderer for an output. The standard output starts with no line.
    pub fn try_from(value: Output) -> (r: Result<OutputWriter, FlatCatError>)
        ensures
            r is Ok,
            r->Ok_0.wf(),
            r->Ok_0@ == (match value {
                Output::Write(inner, opts) => Written { opts, lines: views(inner@), count: 0 },
                Output::StdOut(opts) => Written { opts, lines: Seq::empty(), count: 0 },
            }),
    {
        match value {
            Output::Write(inner, opts) => Ok(OutputWriter::from_writer(inner, opts)),
            Output::StdOut(opts) => {
                let writer = OutputWriter::from_writer(Vec::new(), opts);
                assert(writer@.lines =~= Seq::<Seq<char>>::empty());
                Ok(writer)
            },
        }
    }

    /// The lines written so far, the oldest first.
    pub fn written(&self) -> (lines: &Vec<String>)
        ensures
            views(lines@) == self@.lines,
    {
        &self.inner
    }

    /// The options of the renderer.
    pub fn opts(&self) -> (opts: OutputOpts)
        ensures
            opts == self@.opts,
    {
        self.opts
    }

    /// The path segment of the array element `i`.
    pub fn array(&self, i: usize) -> (segment: String)
        ensures
            segment@ == array_segment(self@.opts.colorful, i as nat),
    {
        let mut segment = String::new();
        push_painted(&mut segment, self.opts.colorful, Kind::Array, "[");
        push_decimal(&mut segment, i);
        push_painted(&mut segment, self.opts.colorful, Kind::Array, "]");
        assert(segment@ =~= array_segment(self@.opts.colorful, i as nat));
        segment
    }

    /// Writes the line of a boolean.
    pub fn bool(&mut self, path: &str, b: bool)
        requires
            old(self).wf(),
        ensures
            final(self).wf(),
            final(self)@ == old(self)@.write(Record { path: path@, leaf: Leaf::Bool(b) }),
    {
        let text = if b {
            "true"
        } else {
            "false"
        };
        self.writeln(Kind::Bool, path, text);
    }

    /// Writes the line of a datetime, given as its text.
    pub fn datetime(&mut self, path: &str, datetime: &str)
        requires
            old(self).wf(),
        ensures
            final(self).wf(),
            final(self)@ == old(self)@.write(
                Record { path: path@, leaf: Leaf::Datetime(datetime@) },
            ),
    {
        self.writeln(Kind::Datetime, path, datetime);
    }

    /// Writes the line of a number, given as its text.
    pub fn number(&mut self, path: &str, number: &str)
        requires
            old(self).wf(),
        ensures
            final(self).wf(),
            final(self)@ == old(self)@.write(Record { path: path@, leaf: Leaf::Number(number@) }),
    {
        self.writeln(Kind::Number, path, number);
    }

    /// Writes the line of a string, in quotes where the options ask for them.
    pub fn string(&mut self, path: &str, str: &str)
        requires
            old(self).wf(),
        ensures
            final(self).wf(),
            final(self)@ == old(self)@.write(Record { path: path@, leaf: Leaf::String(str@) }),
    {
        if self.opts.quotes {
            let mut quoted = String::new();
            quoted.append("\"");
            quoted.append(str);
            quoted.append("\"");
            assert(quoted@ =~= "\""@ + str@ + "\""@);
            self.writeln(Kind::String, path, quoted.as_str());
        } else {
            self.writeln(Kind::String, path, str);
        }
    }

    /// Writes the line of a `null`, unless the options leave nulls out.
    pub fn null(&mut self, path: &str)
        requires
            old(self).wf(),
        ensures
            final(self).wf(),
            final(self)@ == old(self)@.write(Record { path: path@, leaf: Leaf::Null }),
    {
        if self.opts.null {
            self.special(path, "null")
        }
    }

    /// Writes the line of a special value, given as its text.
    pub fn special(&mut self, path: &str, str: &str)
        requires
            old(self).wf(),
        ensures
            final(self).wf(),
            final(self)@ == old(self)@.write(Record { path: path@, leaf: Leaf::Special(str@) }),
    {
        self.writeln(Kind::Special, path, str);
    }

    /// Writes a line of text as it stands, without a path.
    pub fn plain(&mut self, str: &str)
        requires
            old(self).wf(),
        ensures
            final(self).wf(),
            final(self)@ == old(self)@.write(
                Record { path: Seq::empty(), leaf: Leaf::Plain(str@) },
            ),
    {
        let number = self.value_counter.saturating_add(1);
        let mut line = prefix(self.opts.numbers, self.opts.colorful, number);
        push_painted(&mut line, self.opts.colorful, Kind::Plain, str);
        line.append(suffix(self.opts.end_of_line));
        line.append("\n");
        self.push_line(line, number);
    }

    /// Starts the count of lines anew: the next line carries the number 1.
    pub fn reset_value_counter(&mut self)
        requires
            old(self).wf(),
        ensures
            final(self).wf(),
            final(self)@ == (Written { count: 0, ..old(self)@ }),
    {
        self.value_counter = 0;
    }

    fn writeln(&mut self, kind: Kind, path: &str, value: &str)
        requires
            old(self).wf(),
        ensures
            final(self).wf(),
            final(self)@ == old(self)@.push_line(
                leaf_line(old(self)@.opts, old(self)@.count + 1, kind, path@, value@),
            ),
    {
        let number = self.value_counter.saturating_add(1);
        let mut line = prefix(self.opts.numbers, self.opts.colorful, number);
        line.append(path);
        line.append(": ");
        push_painted(&mut line, self.opts.colorful, kind, value);
        line.append(suffix(self.opts.end_of_line));
        line.append("\n");
        self.push_line(line, number);
    }

    /// Takes a finished line, which was rendered with the number `number`.
    /// That the number did not overflow shows only here: the lines are held
    /// in memory, so fewer than `usize::MAX` of them were counted.
    fn push_line(&mut self, line: String, number: usize)
        requires
            old(self).wf(),
            number == if old(self).value_counter < usize::MAX {
                old(self).value_counter + 1
            } else {
                usize::MAX as int
            },
        ensures
            final(self).wf(),
            number == old(self)@.count + 1,
            final(self)@ == old(self)@.push_line(line@),
    {
        self.inner.push(line);
        assert(self.inner.len() == self.inner@.len());
        self.value_counter = number;
        assert(views(self.inner@) =~= views(old(self).inner@).push(line@));
    }
}

} // verus!
