//! Rows as lines of tab-separated values.
//!
//! The lines are written by the `csv` crate into memory; whoever calls writes
//! the bytes to the output file.

use vstd::prelude::*;
use vstd::pervasive::unreached;
use crate::row::{rows_of, rows_outcome, table, LogEntry, RowError};
use crate::schema::{column_names, header, TSV_DELIMITER};
use crate::text::texts;

verus! {

/// A `csv::Writer` that writes delimited records into memory.  Nothing
/// inside it is visible to proofs; what is known of it is what the
/// functions below, which call its methods, say of it.
#[verifier::external_body]
pub struct RecordWriter {
    inner: csv::Writer<Vec<u8>>,
}

/// The records that were written to `writer` so far, each as the texts of its
/// fields.
pub uninterp spec fn written(writer: RecordWriter) -> Seq<Seq<Seq<char>>>;

/// The byte that `writer` was told to put between the fields of a record.
pub uninterp spec fn delimiter_of(writer: RecordWriter) -> u8;

/// The bytes that a `csv::Writer` with default settings, but for the
/// delimiter `delimiter`, produces for `records`: each record's fields,
/// quoted where csv finds it necessary, with the delimiter between them and a
/// line feed behind the record.
pub uninterp spec fn delimited(records: Seq<Seq<Seq<char>>>, delimiter: u8) -> Seq<u8>;

/// Whether all of `rows` have as many fields as the first.
pub open spec fn is_uniform(rows: Seq<Vec<String>>) -> bool {
    forall|i: int| 0 <= i < rows.len() ==> (#[trigger] rows[i])@.len() == rows[0]@.len()
}

/// Calls `csv::WriterBuilder::new`, sets the delimiter with
/// `WriterBuilder::delimiter` and makes a writer into an empty vector with
/// `WriterBuilder::from_writer`.  The writer has the delimiter it was given
/// and nothing has been written to it.
#[verifier::external_body]
fn start_writer(delimiter: u8) -> (writer: RecordWriter)
    ensures
        written(writer) == Seq::<Seq<Seq<char>>>::empty(),
        delimiter_of(writer) == delimiter,
{
    RecordWriter { inner: csv::WriterBuilder::new().delimiter(delimiter).from_writer(Vec::new()) }
}

/// Calls `csv::Writer::write_record`.  That method fails when the record has
/// another number of fields than the first record written, or when the
/// underlying writer fails; a vector never does, and the other case is left
/// out here.  The record is then the last of those written, and the delimiter
/// stays.
#[verifier::external_body]
fn write_record(writer: &mut RecordWriter, record: &Vec<String>)
    requires
        written(*old(writer)).len() == 0 || record@.len() == written(*old(writer))[0].len(),
    ensures
        written(*final(writer)) == written(*old(writer)).push(texts(record@)),
        delimiter_of(*final(writer)) == delimiter_of(*old(writer)),
{
    writer.inner.write_record(record).expect("records of one length, written to memory")
}

/// Calls `csv::Writer::into_inner`, which flushes the writer's buffer into
/// the vector and hands the vector back; flushing into a vector does not
/// fail.  The bytes are those that csv produces for the records written,
/// with the writer's delimiter.
#[verifier::external_body]
fn finish_writer(writer: RecordWriter) -> (bytes: Vec<u8>)
    ensures
        bytes@ == delimited(written(writer), delimiter_of(writer)),
{
    writer.inner.into_inner().expect("flushing to memory")
}

/// Writes the header line of tab-separated output.
pub fn tsv_header() -> (bytes: Vec<u8>)
    ensures
        bytes@ == delimited(seq![column_names()], TSV_DELIMITER),
{
    let mut writer = start_writer(TSV_DELIMITER);
    let names = header();
    write_record(&mut writer, &names);
    assert(written(writer) =~= seq![column_names()]);
    finish_writer(writer)
}

/// Writes `rows` as lines of tab-separated values, one line for each row.
///
/// Rows of different lengths make no table: they are refused.
pub fn tsv_lines(rows: &Vec<Vec<String>>) -> (out: Option<Vec<u8>>)
    ensures
        out is Some <==> is_uniform(rows@),
        out matches Some(bytes) ==> bytes@ == delimited(table(rows@), TSV_DELIMITER),
{
    let mut writer = start_writer(TSV_DELIMITER);
    let mut i: usize = 0;
    while i < rows.len()
        invariant
            i <= rows.len(),
            delimiter_of(writer) == TSV_DELIMITER,
            written(writer) == table(rows@).subrange(0, i as int),
            forall|k: int| 0 <= k < i ==> (#[trigger] rows@[k])@.len() == rows@[0]@.len(),
        decreases rows.len() - i,
    {
        if rows[i].len() != rows[0].len() {
            return None;
        }
        proof {
            if i > 0 {
                assert(written(writer)[0] == texts(rows@[0]@));
            }
        }
        write_record(&mut writer, &rows[i]);
        assert(written(writer) =~= table(rows@).subrange(0, i + 1));
        i += 1;
    }
    assert(table(rows@).subrange(0, rows@.len() as int) =~= table(rows@));
    Some(finish_writer(writer))
}

/// Writes the entries of a batch as lines of tab-separated values.
pub fn tsv_of(entries: &Vec<LogEntry>) -> (outcome: Result<Vec<u8>, RowError>)
    ensures
        match outcome {
            Ok(bytes) => rows_outcome(entries@) matches Ok(rows) && bytes@ == delimited(
                rows,
                TSV_DELIMITER,
            ),
            Err(e) => Err::<Seq<Seq<Seq<char>>>, RowError>(e) == rows_outcome(entries@),
        },
{
    match rows_of(entries) {
        Err(e) => Err(e),
        Ok(rows) => {
            match tsv_lines(&rows) {
                Some(bytes) => Ok(bytes),
                None => unreached(),
            }
        },
    }
}

} // verus!
