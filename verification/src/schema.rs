//! The columns of the output, and the statements that create and fill the
//! table.

use vstd::prelude::*;
use vstd::string::*;
use crate::row::COLUMN_COUNT;
use crate::text::{decimal, decimal_text, texts};

verus! {

/// The byte that separates the fields of a line of tab-separated output.
pub const TSV_DELIMITER: u8 = 9;

/// What a column of the table holds.
#[derive(Clone, Copy, Debug, PartialEq, Eq, Structural)]
pub enum ColumnKind {
    /// Text.
    Text,
    /// A whole number.
    Integer,
}

impl ColumnKind {
    /// The name of the kind in a table definition.
    pub open spec fn spec_sql_name(self) -> Seq<char> {
        match self {
            ColumnKind::Text => "TEXT"@,
            ColumnKind::Integer => "INTEGER"@,
        }
    }

    /// The name of the kind in a table definition.
    pub fn sql_name(self) -> (name: &'static str)
        ensures
            name@ == self.spec_sql_name(),
    {
        match self {
            ColumnKind::Text => "TEXT",
            ColumnKind::Integer => "INTEGER",
        }
    }
}

/// The names of the columns, in the order of a row.
pub open spec fn column_names() -> Seq<Seq<char>> {
    seq![
        "File"@,
        "DecompFilePos"@,
        "ContinuousTime"@,
        "TimeUtc"@,
        "Thread"@,
        "Type"@,
        "ActivityID"@,
        "ParentActivityID"@,
        "ProcessID"@,
        "EffectiveUID"@,
        "TTL"@,
        "ProcessName"@,
        "SenderName"@,
        "Subsystem"@,
        "Category"@,
        "SignpostName"@,
        "SignpostInfo"@,
        "ImageOffset"@,
        "SenderUUID"@,
        "ProcessImageUUID"@,
        "SenderImagePath"@,
        "ProcessImagePath"@,
        "Message"@,
    ]
}

/// The kinds of the columns, in the order of a row.
pub open spec fn column_kinds() -> Seq<ColumnKind> {
    seq![
        ColumnKind::Text,
        ColumnKind::Integer,
        ColumnKind::Text,
        ColumnKind::Text,
        ColumnKind::Integer,
        ColumnKind::Text,
        ColumnKind::Integer,
        ColumnKind::Integer,
        ColumnKind::Integer,
        ColumnKind::Integer,
        ColumnKind::Integer,
        ColumnKind::Text,
        ColumnKind::Text,
        ColumnKind::Text,
        ColumnKind::Text,
        ColumnKind::Text,
        ColumnKind::Text,
        ColumnKind::Integer,
        ColumnKind::Text,
        ColumnKind::Text,
        ColumnKind::Text,
        ColumnKind::Text,
        ColumnKind::Text,
    ]
}

/// The texts `parts` with `separator` between each two neighbours.
pub open spec fn joined(parts: Seq<Seq<char>>, separator: Seq<char>) -> Seq<char>
    decreases parts.len(),
{
    if parts.len() == 0 {
        Seq::empty()
    } else if parts.len() == 1 {
        parts[0]
    } else {
        joined(parts.drop_last(), separator) + separator + parts.last()
    }
}

/// The definition of each column in the table: its name, a space, its kind.
pub open spec fn column_definitions() -> Seq<Seq<char>> {
    Seq::new(
        COLUMN_COUNT as nat,
        |i: int| column_names()[i] + seq![' '] + column_kinds()[i].spec_sql_name(),
    )
}

/// The parameter of each column in the insert statement: `?` and the number
/// of the column, counted from 1.
pub open spec fn column_parameters() -> Seq<Seq<char>> {
    Seq::new(COLUMN_COUNT as nat, |i: int| seq!['?'] + decimal((i + 1) as nat))
}

/// The statement that creates the table.
pub open spec fn create_table_statement() -> Seq<char> {
    "CREATE TABLE "@ + "UnifiedLogs"@ + " ("@ + joined(column_definitions(), ", "@) + ");"@
}

/// The statement that inserts one row.
pub open spec fn insert_statement() -> Seq<char> {
    "INSERT INTO "@ + "UnifiedLogs"@ + " ("@ + joined(column_names(), ", "@) + ") VALUES ("@
        + joined(column_parameters(), ", "@) + ");"@
}

/// The name of the one table of the database.
pub fn table_name() -> (name: &'static str)
    ensures
        name@ == "UnifiedLogs"@,
{
    "UnifiedLogs"
}

/// The journal mode that the database is put in before the table is created.
pub fn journal_mode() -> (mode: &'static str)
    ensures
        mode@ == "WAL"@,
{
    "WAL"
}

/// The names of the columns, in the order of a row: the header line of
/// tab-separated output.
pub fn header() -> (names: Vec<String>)
    ensures
        texts(names@) == column_names(),
        names@.len() == COLUMN_COUNT,
{
    let mut names: Vec<String> = Vec::new();
    names.push(String::from_str("File"));
    names.push(String::from_str("DecompFilePos"));
    names.push(String::from_str("ContinuousTime"));
    names.push(String::from_str("TimeUtc"));
    names.push(String::from_str("Thread"));
    names.push(String::from_str("Type"));
    names.push(String::from_str("ActivityID"));
    names.push(String::from_str("ParentActivityID"));
    names.push(String::from_str("ProcessID"));
    names.push(String::from_str("EffectiveUID"));
    names.push(String::from_str("TTL"));
    names.push(String::from_str("ProcessName"));
    names.push(String::from_str("SenderName"));
    names.push(String::from_str("Subsystem"));
    names.push(String::from_str("Category"));
    names.push(String::from_str("SignpostName"));
    names.push(String::from_str("SignpostInfo"));
    names.push(String::from_str("ImageOffset"));
    names.push(String::from_str("SenderUUID"));
    names.push(String::from_str("ProcessImageUUID"));
    names.push(String::from_str("SenderImagePath"));
    names.push(String::from_str("ProcessImagePath"));
    names.push(String::from_str("Message"));
    assert(texts(names@) =~= column_names());
    names
}

/// The kinds of the columns, in the order of a row.
pub fn kinds() -> (kinds: Vec<ColumnKind>)
    ensures
        kinds@ == column_kinds(),
        kinds@.len() == COLUMN_COUNT,
{
    let mut kinds: Vec<ColumnKind> = Vec::new();
    kinds.push(ColumnKind::Text);
    kinds.push(ColumnKind::Integer);
    kinds.push(ColumnKind::Text);
    kinds.push(ColumnKind::Text);
    kinds.push(ColumnKind::Integer);
    kinds.push(ColumnKind::Text);
    kinds.push(ColumnKind::Integer);
    kinds.push(ColumnKind::Integer);
    kinds.push(ColumnKind::Integer);
    kinds.push(ColumnKind::Integer);
    kinds.push(ColumnKind::Integer);
    kinds.push(ColumnKind::Text);
    kinds.push(ColumnKind::Text);
    kinds.push(ColumnKind::Text);
    kinds.push(ColumnKind::Text);
    kinds.push(ColumnKind::Text);
    kinds.push(ColumnKind::Text);
    kinds.push(ColumnKind::Integer);
    kinds.push(ColumnKind::Text);
    kinds.push(ColumnKind::Text);
    kinds.push(ColumnKind::Text);
    kinds.push(ColumnKind::Text);
    kinds.push(ColumnKind::Text);
    assert(kinds@ =~= column_kinds());
    kinds
}

/// Joins `parts` with `separator` between each two neighbours.
pub fn join(parts: &Vec<String>, separator: &str) -> (whole: String)
    ensures
        whole@ == joined(texts(parts@), separator@),
{
    let mut whole = String::new();
    let mut i: usize = 0;
    while i < parts.len()
        invariant
            i <= parts.len(),
            whole@ == joined(texts(parts@).subrange(0, i as int), separator@),
        decreases parts.len() - i,
    {
        let ghost before = texts(parts@).subrange(0, i as int);
        let ghost after = texts(parts@).subrange(0, i + 1);
        assert(after.drop_last() =~= before);
        assert(after.last() == parts@[i as int]@);
        if i > 0 {
            whole.append(separator);
        }
        whole.append(parts[i].as_str());
        assert(whole@ =~= joined(after, separator@));
        i += 1;
    }
    assert(texts(parts@).subrange(0, parts@.len() as int) =~= texts(parts@));
    whole
}

/// Writes the statement that creates the table.
pub fn create_table_sql() -> (sql: String)
    ensures
        sql@ == create_table_statement(),
{
    let names = header();
    let kinds = kinds();
    let mut definitions: Vec<String> = Vec::new();
    let mut i: usize = 0;
    proof {
        reveal_strlit(" ");
    }
    assert(" "@ =~= seq![' ']);
    while i < COLUMN_COUNT
        invariant
            i <= COLUMN_COUNT,
            names@.len() == COLUMN_COUNT,
            kinds@.len() == COLUMN_COUNT,
            texts(names@) == column_names(),
            kinds@ == column_kinds(),
            " "@ == seq![' '],
            definitions@.len() == i,
            forall|k: int| 0 <= k < i ==> (#[trigger] definitions@[k])@ == column_definitions()[k],
        decreases COLUMN_COUNT - i,
    {
        let mut definition = names[i].clone();
        definition.append(" ");
        definition.append(kinds[i].sql_name());
        assert(names@[i as int]@ == texts(names@)[i as int]);
        definitions.push(definition);
        i += 1;
    }
    assert(texts(definitions@) =~= column_definitions());
    let mut sql = String::from_str("CREATE TABLE ");
    sql.append(table_name());
    sql.append(" (");
    sql.append(join(&definitions, ", ").as_str());
    sql.append(");");
    sql
}

/// Writes the statement that inserts one row, with one numbered parameter for
/// each column.
pub fn insert_sql() -> (sql: String)
    ensures
        sql@ == insert_statement(),
{
    let names = header();
    let mut parameters: Vec<String> = Vec::new();
    let mut i: usize = 0;
    proof {
        reveal_strlit("?");
    }
    assert("?"@ =~= seq!['?']);
    while i < COLUMN_COUNT
        invariant
            i <= COLUMN_COUNT,
            "?"@ == seq!['?'],
            parameters@.len() == i,
            forall|k: int| 0 <= k < i ==> (#[trigger] parameters@[k])@ == column_parameters()[k],
        decreases COLUMN_COUNT - i,
    {
        let mut parameter = String::from_str("?");
        parameter.append(decimal_text((i + 1) as u64).as_str());
        parameters.push(parameter);
        i += 1;
    }
    assert(texts(parameters@) =~= column_parameters());
    let mut sql = String::from_str("INSERT INTO ");
    sql.append(table_name());
    sql.append(" (");
    sql.append(join(&names, ", ").as_str());
    sql.append(") VALUES (");
    sql.append(join(&parameters, ", ").as_str());
    sql.append(");");
    sql
}

} // verus!
