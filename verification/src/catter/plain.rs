//! Inputs without structure: they are written line by line.

use vstd::prelude::*;
use vstd::slice::slice_subrange;
use vstd::utf8::*;

use crate::catter::{Catter, Reading};
use crate::error::FlatCatError;
use crate::input::InputReader;
use crate::output::{lemma_write_all_concat, lemma_write_all_one, Leaf, OutputWriter, Record, Written};
use crate::FlatCatOpts;

verus! {

/// The number of bytes from `from` up to the next line feed, or up to the
/// end where there is none.
pub open spec fn line_len(bytes: Seq<u8>, from: int) -> nat
    decreases bytes.len() - from,
{
    if from < 0 || from >= bytes.len() || bytes[from] == 10 {
        0
    } else {
        1 + line_len(bytes, from + 1)
    }
}

/// The place of the first line feed at or after `from`, or the length of
/// the bytes where there is none.
pub open spec fn line_end(bytes: Seq<u8>, from: int) -> int {
    from + line_len(bytes, from)
}

/// The line that starts at `from`: the bytes up to the line feed, without a
/// carriage return that stands right before it. A last line with no line
/// feed behind it is taken as it stands.
pub open spec fn line_at(bytes: Seq<u8>, from: int) -> Seq<u8> {
    let end = line_end(bytes, from);
    if end < bytes.len() && from < end && bytes[end - 1] == 13 {
        bytes.subrange(from, end - 1)
    } else {
        bytes.subrange(from, end)
    }
}

/// Where the line after the one at `from` starts: behind the line feed, or
/// at the end of the bytes.
pub open spec fn next_line(bytes: Seq<u8>, from: int) -> int {
    let end = line_end(bytes, from);
    if end < bytes.len() {
        end + 1
    } else {
        bytes.len() as int
    }
}

/// The record of a line of text.
pub open spec fn plain_record(line: Seq<u8>) -> Record {
    Record { path: Seq::empty(), leaf: Leaf::Plain(decode_utf8(line)) }
}

/// The reading of the lines from `from` on: one record for each line, as
/// it stands and in order, up to the first line that is no UTF-8 text.
pub open spec fn plain_reading(bytes: Seq<u8>, from: int) -> Reading
    decreases bytes.len() - from,
{
    if from < 0 || from >= bytes.len() {
        Reading { records: Seq::empty(), complete: true }
    } else if valid_utf8(line_at(bytes, from)) {
        let rest = plain_reading(bytes, next_line(bytes, from));
        Reading {
            records: seq![plain_record(line_at(bytes, from))] + rest.records,
            complete: rest.complete,
        }
    } else {
        Reading { records: Seq::empty(), complete: false }
    }
}

/// A line ends inside the bytes, and at a line feed unless it is the last.
pub proof fn lemma_line_end_bounds(bytes: Seq<u8>, from: int)
    requires
        0 <= from <= bytes.len(),
    ensures
        from <= line_end(bytes, from) <= bytes.len(),
        line_end(bytes, from) < bytes.len() ==> bytes[line_end(bytes, from)] == 10,
        from < bytes.len() && bytes[from] != 10 ==> line_end(bytes, from) == line_end(
            bytes,
            from + 1,
        ),
    decreases bytes.len() - from,
{
    if from < bytes.len() && bytes[from] != 10 {
        lemma_line_end_bounds(bytes, from + 1);
    }
}

/// `std::io::Read::read_to_string`, on bytes in memory: the text that the
/// bytes encode, or an error where they are no UTF-8.
#[verifier::external_body]
fn read_text(bytes: &[u8]) -> (r: Result<String, std::io::Error>)
    ensures
        r is Ok <==> valid_utf8(bytes@),
        r matches Ok(text) ==> text@ == decode_utf8(bytes@),
{
    let mut source = bytes;
    let mut text = String::new();
    std::io::Read::read_to_string(&mut source, &mut text).map(|_| text)
}

/// The catter for inputs without structure.
pub struct PlainCatter<'a> {
    pub opts: &'a FlatCatOpts,
    pub output: &'a mut OutputWriter,
}

impl<'a> PlainCatter<'a> {
    /// A catter that writes to `output`.
    pub fn new<'b>(opts: &'b FlatCatOpts, output: &'b mut OutputWriter) -> (catter: PlainCatter<'b>)
        ensures
            catter.opts == opts,
            *catter.output == *old(output),
            *final(catter.output) == *final(output),
    {
        PlainCatter { opts, output }
    }

    /// Writes the lines of `read`, each as it stands, up to the first that
    /// is no text.
    #[verifier::loop_isolation(false)]
    pub fn plain(&mut self, read: &[u8]) -> (r: Result<(), FlatCatError>)
        requires
            old(self).output.wf(),
        ensures
            final(self).output.wf(),
            final(self).output@ == old(self).output@.write_all(plain_reading(read@, 0).records),
            r is Ok <==> plain_reading(read@, 0).complete,
            r matches Err(e) ==> e is IoError,
            *final(final(self).output) == *final(old(self).output),
    {
        let ghost start = self.output@;
        let ghost target = *final(self.output);
        let ghost written: Seq<Record> = Seq::empty();
        let len = read.len();
        let mut from: usize = 0;
        assert(written + plain_reading(read@, 0).records =~= plain_reading(read@, 0).records);
        while from < len
            invariant
                from <= len,
                len == read@.len(),
                self.output.wf(),
                self.output@ == start.write_all(written),
                *final(self.output) == target,
                plain_reading(read@, 0).records == written + plain_reading(
                    read@,
                    from as int,
                ).records,
                plain_reading(read@, 0).complete == plain_reading(read@, from as int).complete,
            decreases len - from,
        {
            let mut end: usize = from;
            while end < len && read[end] != 10
                invariant
                    from <= end <= len,
                    len == read@.len(),
                    line_end(read@, end as int) == line_end(read@, from as int),
                decreases len - end,
            {
                proof {
                    lemma_line_end_bounds(read@, end as int);
                }
                end = end + 1;
            }
            proof {
                lemma_line_end_bounds(read@, end as int);
            }
            let stop = if end < len && from < end && read[end - 1] == 13 {
                end - 1
            } else {
                end
            };
            let line = slice_subrange(read, from, stop);
            assert(line@ == line_at(read@, from as int));
            let next = if end < len {
                end + 1
            } else {
                end
            };
            match read_text(line) {
                Ok(text) => {
                    self.output.plain(text.as_str());
                    proof {
                        let record = plain_record(line@);
                        let rest = plain_reading(read@, next as int).records;
                        lemma_write_all_one(start.write_all(written), record);
                        lemma_write_all_concat(start, written, seq![record]);
                        assert(written + (seq![record] + rest) =~= (written + seq![record]) + rest);
                        written = written + seq![record];
                    }
                },
                Err(source) => {
                    proof {
                        assert(written + Seq::<Record>::empty() =~= written);
                    }
                    return Err(FlatCatError::IoError { source });
                },
            }
            from = next;
        }
        proof {
            assert(written + Seq::<Record>::empty() =~= written);
        }
        Ok(())
    }
}

impl<'a> Catter for PlainCatter<'a> {
    open spec fn written(&self) -> Written {
        self.output@
    }

    open spec fn wf(&self) -> bool {
        self.output.wf()
    }

    open spec fn reading(input: Seq<u8>, colorful: bool) -> Reading {
        plain_reading(input, 0)
    }

    fn cat(&mut self, read: &InputReader) -> (r: Result<(), FlatCatError>)
        ensures
            r matches Err(e) ==> e is IoError,
            *final(final(self).output) == *final(old(self).output),
    {
        self.plain(read.bytes())
    }
}

} // verus!
