//! A resolved log entry and the row that is written for it.

use vstd::prelude::*;
use vstd::string::*;
use crate::text::{decimal, decimal_text, final_segment, last_segment, texts};
use crate::time::{is_utc_micros_text, rfc3339_micros, time_utc};
use crate::uuid::{is_hyphenated_uuid, law_rendering_is_canonical, render_uuid, rendered_uuid};

verus! {

/// The number of columns of a row.
pub const COLUMN_COUNT: usize = 23;

/// A log entry with every reference resolved.
#[derive(Debug)]
pub struct LogEntry {
    /// The time of the entry in nanoseconds after the start of 1970, UTC.
    pub time_nanos: i64,
    /// The thread that logged the entry.
    pub thread_id: u64,
    /// The type, or level, of the entry.
    pub log_type: String,
    /// The activity that the entry belongs to.
    pub activity_id: u64,
    /// The process that logged the entry.
    pub pid: u64,
    /// The effective user of that process.
    pub euid: u32,
    /// The path of the image of the process.
    pub process: String,
    /// The path of the image of the library that the entry was sent from.
    pub library: String,
    /// The identifier of the process image: 32 hexadecimal digits, or empty.
    pub process_uuid: String,
    /// The identifier of the library image: 32 hexadecimal digits, or empty.
    pub library_uuid: String,
    /// The subsystem of the entry.
    pub subsystem: String,
    /// The category of the entry.
    pub category: String,
    /// The text of the message.
    pub message: String,
}

/// Why no row can be written for an entry.
#[derive(Clone, Copy, Debug, PartialEq, Eq, Structural)]
pub enum RowError {
    /// The identifier of the library image is neither empty nor 32
    /// hexadecimal digits.
    BadSenderUuid,
    /// The identifier of the process image is neither empty nor 32
    /// hexadecimal digits.
    BadProcessUuid,
}

/// The text that stands in column `i` of every row, if that column is not
/// filled from the entry.
pub open spec fn placeholder(i: int) -> Option<Seq<char>> {
    if i == 0 || i == 15 || i == 16 {
        Some(Seq::empty())
    } else if i == 1 || i == 2 || i == 7 || i == 10 || i == 17 {
        Some(seq!['0'])
    } else {
        None
    }
}

impl LogEntry {
    /// Whether both image identifiers can be rendered.
    pub open spec fn has_valid_uuids(&self) -> bool {
        &&& rendered_uuid(self.library_uuid@) is Some
        &&& rendered_uuid(self.process_uuid@) is Some
    }

    /// The row of the entry, given the text `time_utc` of its time.
    pub open spec fn row_with(&self, time_utc: Seq<char>) -> Seq<Seq<char>> {
        seq![
            Seq::empty(),
            seq!['0'],
            seq!['0'],
            time_utc,
            decimal(self.thread_id as nat),
            self.log_type@,
            decimal(self.activity_id as nat),
            seq!['0'],
            decimal(self.pid as nat),
            decimal(self.euid as nat),
            seq!['0'],
            final_segment(self.process@),
            final_segment(self.library@),
            self.subsystem@,
            self.category@,
            Seq::empty(),
            Seq::empty(),
            seq!['0'],
            rendered_uuid(self.library_uuid@)->Some_0,
            rendered_uuid(self.process_uuid@)->Some_0,
            self.library@,
            self.process@,
            self.message@,
        ]
    }

    /// What `assemble_row` and `to_row` answer: the row, or the identifier
    /// that has no rendering, the library's first.
    pub open spec fn row_outcome(&self, time_utc: Seq<char>) -> Result<Seq<Seq<char>>, RowError> {
        if rendered_uuid(self.library_uuid@) is None {
            Err(RowError::BadSenderUuid)
        } else if rendered_uuid(self.process_uuid@) is None {
            Err(RowError::BadProcessUuid)
        } else {
            Ok(self.row_with(time_utc))
        }
    }

    /// Builds the row of the entry around the text `time_utc` of its time.
    ///
    /// The columns come in the order of `crate::schema::column_names`.  The
    /// names of the process and of the sender are the final segments of their
    /// image paths; numbers are written in decimal; the columns that nothing
    /// fills yet hold an empty text or `0`.
    pub fn assemble_row(&self, time_utc: String) -> (outcome: Result<Vec<String>, RowError>)
        ensures
            match outcome {
                Ok(row) => Ok::<Seq<Seq<char>>, RowError>(texts(row@)) == self.row_outcome(
                    time_utc@,
                ) && row@.len() == COLUMN_COUNT,
                Err(e) => Err::<Seq<Seq<char>>, RowError>(e) == self.row_outcome(time_utc@),
            },
    {
        let sender_uuid = match render_uuid(self.library_uuid.as_str()) {
            Some(text) => text,
            None => {
                return Err(RowError::BadSenderUuid);
            },
        };
        let process_uuid = match render_uuid(self.process_uuid.as_str()) {
            Some(text) => text,
            None => {
                return Err(RowError::BadProcessUuid);
            },
        };
        proof {
            reveal_strlit("0");
        }
        assert("0"@ =~= seq!['0']);
        let mut row: Vec<String> = Vec::new();
        row.push(String::new());
        row.push(String::from_str("0"));
        row.push(String::from_str("0"));
        row.push(time_utc);
        row.push(decimal_text(self.thread_id));
        row.push(self.log_type.clone());
        row.push(decimal_text(self.activity_id));
        row.push(String::from_str("0"));
        row.push(decimal_text(self.pid));
        row.push(decimal_text(self.euid as u64));
        row.push(String::from_str("0"));
        row.push(last_segment(self.process.as_str()));
        row.push(last_segment(self.library.as_str()));
        row.push(self.subsystem.clone());
        row.push(self.category.clone());
        row.push(String::new());
        row.push(String::new());
        row.push(String::from_str("0"));
        row.push(sender_uuid);
        row.push(process_uuid);
        row.push(self.library.clone());
        row.push(self.process.clone());
        row.push(self.message.clone());
        assert(texts(row@) =~= self.row_with(time_utc@));
        Ok(row)
    }

    /// Builds the row of the entry.
    pub fn to_row(&self) -> (outcome: Result<Vec<String>, RowError>)
        ensures
            match outcome {
                Ok(row) => Ok::<Seq<Seq<char>>, RowError>(texts(row@)) == self.row_outcome(
                    rfc3339_micros(self.time_nanos),
                ) && row@.len() == COLUMN_COUNT,
                Err(e) => Err::<Seq<Seq<char>>, RowError>(e) == self.row_outcome(
                    rfc3339_micros(self.time_nanos),
                ),
            },
            outcome matches Ok(row) ==> is_utc_micros_text(row@[3]@),
    {
        self.assemble_row(time_utc(self.time_nanos))
    }
}

/// The texts held by a sequence of rows of strings.
pub open spec fn table(rows: Seq<Vec<String>>) -> Seq<Seq<Seq<char>>> {
    Seq::new(rows.len(), |i: int| texts(rows[i]@))
}

/// What `rows_of` answers: the rows of all entries, or the error of the first
/// entry that has none.
pub open spec fn rows_outcome(entries: Seq<LogEntry>) -> Result<Seq<Seq<Seq<char>>>, RowError>
    decreases entries.len(),
{
    if entries.len() == 0 {
        Ok(Seq::empty())
    } else {
        match rows_outcome(entries.drop_last()) {
            Err(e) => Err(e),
            Ok(rows) => match entries.last().row_outcome(
                rfc3339_micros(entries.last().time_nanos),
            ) {
                Err(e) => Err(e),
                Ok(row) => Ok(rows.push(row)),
            },
        }
    }
}

/// Builds the row of each entry of a batch, in order.
pub fn rows_of(entries: &Vec<LogEntry>) -> (outcome: Result<Vec<Vec<String>>, RowError>)
    ensures
        match outcome {
            Ok(rows) => {
                &&& Ok::<Seq<Seq<Seq<char>>>, RowError>(table(rows@)) == rows_outcome(entries@)
                &&& rows@.len() == entries@.len()
                &&& forall|i: int| 0 <= i < rows@.len() ==> (#[trigger] rows@[i])@.len()
                    == COLUMN_COUNT
            },
            Err(e) => Err::<Seq<Seq<Seq<char>>>, RowError>(e) == rows_outcome(entries@),
        },
{
    let mut rows: Vec<Vec<String>> = Vec::new();
    let mut i: usize = 0;
    assert(table(rows@) =~= Seq::<Seq<Seq<char>>>::empty());
    while i < entries.len()
        invariant
            i <= entries.len(),
            rows@.len() == i,
            Ok::<Seq<Seq<Seq<char>>>, RowError>(table(rows@)) == rows_outcome(
                entries@.subrange(0, i as int),
            ),
            forall|k: int| 0 <= k < rows@.len() ==> (#[trigger] rows@[k])@.len() == COLUMN_COUNT,
        decreases entries.len() - i,
    {
        let ghost before = entries@.subrange(0, i as int);
        let ghost after = entries@.subrange(0, i + 1);
        assert(after.drop_last() =~= before);
        assert(after.last() == entries@[i as int]);
        match entries[i].to_row() {
            Err(e) => {
                proof {
                    lemma_error_stays(entries@, i + 1);
                }
                return Err(e);
            },
            Ok(row) => {
                let ghost old_rows = table(rows@);
                rows.push(row);
                assert(table(rows@) =~= old_rows.push(texts(row@)));
            },
        }
        i += 1;
    }
    assert(entries@.subrange(0, entries@.len() as int) =~= entries@);
    Ok(rows)
}

/// Once an entry has no row, no longer batch has rows.
proof fn lemma_error_stays(entries: Seq<LogEntry>, n: int)
    requires
        0 <= n <= entries.len(),
        rows_outcome(entries.subrange(0, n)) is Err,
    ensures
        rows_outcome(entries) == rows_outcome(entries.subrange(0, n)),
    decreases entries.len() - n,
{
    if n < entries.len() {
        let longer = entries.subrange(0, n + 1);
        assert(longer.drop_last() =~= entries.subrange(0, n));
        lemma_error_stays(entries, n + 1);
    } else {
        assert(entries.subrange(0, n) =~= entries);
    }
}

/// The two identifier columns of a row hold nothing or a hyphenated
/// identifier, never digits cut in another way.
pub proof fn law_uuid_columns_are_canonical(entry: LogEntry, time_utc: Seq<char>)
    requires
        entry.has_valid_uuids(),
    ensures
        entry.row_outcome(time_utc) == Ok::<Seq<Seq<char>>, RowError>(entry.row_with(time_utc)),
        entry.row_with(time_utc)[18].len() == 0 || is_hyphenated_uuid(entry.row_with(time_utc)[18]),
        entry.row_with(time_utc)[19].len() == 0 || is_hyphenated_uuid(entry.row_with(time_utc)[19]),
{
    if entry.library_uuid@.len() != 0 {
        law_rendering_is_canonical(entry.library_uuid@);
    }
    if entry.process_uuid@.len() != 0 {
        law_rendering_is_canonical(entry.process_uuid@);
    }
}

/// The columns that nothing fills yet hold the same text in every row.
pub proof fn law_placeholders_are_constant(entry: LogEntry, time_utc: Seq<char>, i: int)
    requires
        0 <= i < COLUMN_COUNT,
        placeholder(i) is Some,
    ensures
        entry.row_with(time_utc).len() == COLUMN_COUNT,
        entry.row_with(time_utc)[i] == placeholder(i)->Some_0,
{
}

} // verus!
