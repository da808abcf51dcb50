//! The table as delimited text.

use vstd::prelude::*;
use vstd::string::StringExecFns;
use vstd::utf8::encode_utf8;
use crate::error::AppError;
use crate::fetch::DatasetMetadata;
use crate::table::Table;
use crate::table::TableView;
use crate::table::assemble;
use crate::table::lemma_table_is_rectangular;
use crate::table::record_views;
use crate::table::table_of;
use crate::text::texts;

verus! {

/// A `csv::Writer` with the crate's default settings that writes into a
/// vector of bytes.
#[verifier::external_body]
pub struct CsvBuffer {
    writer: csv::Writer<Vec<u8>>,
}

#[verifier::external_type_specification]
#[verifier::external_body]
pub struct ExCsvError(csv::Error);

/// The bytes that were written through a writer so far, while it has refused
/// no record.
pub uninterp spec fn written(writer: CsvBuffer) -> Seq<u8>;

/// The number of fields of the first record that went through a writer,
/// `None` before the first, while it has refused no record.
pub uninterp spec fn record_width(writer: CsvBuffer) -> Option<nat>;

/// Whether a byte makes quotes necessary: the delimiter, the quote, and the
/// two line ends.
pub open spec fn special(byte: u8) -> bool {
    byte == 0x2c || byte == 0x22 || byte == 0x0a || byte == 0x0d
}

/// Whether a field has to be written in quotes.
pub open spec fn needs_quotes(field: Seq<u8>) -> bool {
    exists|i: int| 0 <= i < field.len() && special(#[trigger] field[i])
}

/// The field with every quote doubled.
pub open spec fn quotes_doubled(field: Seq<u8>) -> Seq<u8>
    decreases field.len(),
{
    if field.len() == 0 {
        Seq::empty()
    } else if field.last() == 0x22 {
        quotes_doubled(field.drop_last()).push(0x22).push(0x22)
    } else {
        quotes_doubled(field.drop_last()).push(field.last())
    }
}

/// One field as it is written: as it is, or between quotes with its own
/// quotes doubled where it holds a special byte.
pub open spec fn field_bytes(field: Seq<u8>) -> Seq<u8> {
    if needs_quotes(field) {
        seq![0x22u8] + quotes_doubled(field) + seq![0x22u8]
    } else {
        field
    }
}

/// The fields of a record as they are written, with a comma between
/// neighbours.
pub open spec fn fields_bytes(fields: Seq<Seq<u8>>) -> Seq<u8>
    decreases fields.len(),
{
    if fields.len() == 0 {
        Seq::empty()
    } else if fields.len() == 1 {
        field_bytes(fields[0])
    } else {
        fields_bytes(fields.drop_last()) + seq![0x2cu8] + field_bytes(fields.last())
    }
}

/// One record as it is written: its fields and a line feed. A record that
/// would otherwise be an empty line is written as a pair of quotes.
pub open spec fn record_bytes(fields: Seq<Seq<u8>>) -> Seq<u8> {
    if fields_bytes(fields).len() == 0 {
        seq![0x22u8, 0x22u8, 0x0au8]
    } else {
        fields_bytes(fields).push(0x0a)
    }
}

/// The cells of a row as bytes, each in UTF-8.
pub open spec fn cells_utf8(cells: Seq<Seq<char>>) -> Seq<Seq<u8>> {
    cells.map_values(|cell: Seq<char>| encode_utf8(cell))
}

/// The rows of a table as they are written, one after the other.
pub open spec fn rows_bytes(rows: Seq<Seq<Seq<char>>>) -> Seq<u8>
    decreases rows.len(),
{
    if rows.len() == 0 {
        Seq::empty()
    } else {
        rows_bytes(rows.drop_last()) + record_bytes(cells_utf8(rows.last()))
    }
}

/// A table as it is written: the header, then the rows.
pub open spec fn table_bytes(table: TableView) -> Seq<u8> {
    record_bytes(cells_utf8(table.header)) + rows_bytes(table.rows)
}

/// Whether every row of a table is as wide as its header.
pub open spec fn rectangular(table: TableView) -> bool {
    forall|i: int| 0 <= i < table.rows.len() ==> (#[trigger] table.rows[i]).len() == table.header.len()
}

/// `csv::Writer::from_writer` on an empty vector: a writer with the crate's
/// default settings, through which nothing has gone yet.
#[verifier::external_body]
fn new_writer() -> (writer: CsvBuffer)
    ensures
        written(writer) == Seq::<u8>::empty(),
        record_width(writer) is None,
{
    CsvBuffer { writer: csv::Writer::from_writer(Vec::new()) }
}

/// `csv::Writer::write_record`, on a writer that has refused no record.
///
/// The writer is taken and is handed back only where the record was taken,
/// so a writer that has refused a record is never written to again: the
/// crate leaves the fields of a refused record in its buffer, and nothing
/// here says what a later record would add behind them.
///
/// With the default settings a record is refused when it has another number
/// of fields than the first record had, and for no other reason, since
/// writing into a vector does not fail. A record that is taken is added as
/// `record_bytes` says: fields in UTF-8, quoted where they hold a comma, a
/// quote or a line end, with their quotes doubled, commas between them and a
/// line feed behind them.
#[verifier::external_body]
fn write_record(writer: CsvBuffer, record: &Vec<String>) -> (r: Result<CsvBuffer, csv::Error>)
    ensures
        r is Ok <==> (record_width(writer) is None || record_width(writer) == Some(record@.len())),
        r is Ok ==> written(r.unwrap()) == written(writer) + record_bytes(
            cells_utf8(texts(record@)),
        ),
        r is Ok ==> record_width(r.unwrap()) == Some(record@.len()),
{
    let mut writer = writer;
    match writer.writer.write_record(record) {
        Ok(()) => Ok(writer),
        Err(error) => Err(error),
    }
}

/// `csv::Writer::into_inner`: flushes, and hands out the vector with all that
/// was written. Flushing into a vector does not fail.
#[verifier::external_body]
fn into_bytes(writer: CsvBuffer) -> (bytes: Option<Vec<u8>>)
    ensures
        bytes is Some,
        bytes.unwrap()@ == written(writer),
{
    writer.writer.into_inner().ok()
}

/// The message of a `csv::Error`, as its `Display` writes it.
#[verifier::external_body]
fn csv_error_text(error: &csv::Error) -> (text: String) {
    error.to_string()
}

/// Writes a table as delimited text: the header, then the rows, each as one
/// line. A table with a row that is not as wide as the header is refused
/// with the error `Csv`.
pub fn to_csv(table: &Table) -> (r: Result<Vec<u8>, AppError>)
    ensures
        r is Ok <==> rectangular(table@),
        r is Ok ==> r.unwrap()@ == table_bytes(table@),
        r is Err ==> r.unwrap_err() is Csv,
{
    let mut writer = match write_record(new_writer(), &table.header) {
        Ok(writer) => writer,
        Err(error) => {
            return Err(AppError::Csv(csv_error_text(&error)));
        },
    };
    let mut i: usize = 0;
    while i < table.rows.len()
        invariant
            i <= table.rows.len(),
            record_width(writer) == Some(table.header@.len()),
            forall|k: int| 0 <= k < i ==> (#[trigger] table@.rows[k]).len() == table@.header.len(),
            written(writer) == record_bytes(cells_utf8(table@.header)) + rows_bytes(
                table@.rows.take(i as int),
            ),
        decreases table.rows.len() - i,
    {
        proof {
            let next = table@.rows.take(i as int + 1);
            assert(next.drop_last() =~= table@.rows.take(i as int));
            assert(next.last() == texts(table.rows@[i as int]@));
            assert(table@.rows[i as int].len() == table.rows@[i as int]@.len());
        }
        writer = match write_record(writer, &table.rows[i]) {
            Ok(writer) => writer,
            Err(error) => {
                return Err(AppError::Csv(csv_error_text(&error)));
            },
        };
        i += 1;
    }
    proof {
        assert(table@.rows.take(table.rows.len() as int) =~= table@.rows);
    }
    match into_bytes(writer) {
        Some(bytes) => Ok(bytes),
        None => Err(AppError::Csv(String::from_str("the writer could not be flushed"))),
    }
}

/// Writes `dataset_metadata` as a table in delimited text, with one column
/// for each download URL of the record that has most. This never fails: the
/// table that is assembled is a rectangle.
pub fn write_csv(dataset_metadata: &[(DatasetMetadata, Vec<String>)]) -> (r: Result<Vec<u8>, AppError>)
    ensures
        r is Ok,
        r.unwrap()@ == table_bytes(table_of(record_views(dataset_metadata@))),
{
    proof {
        lemma_table_is_rectangular(record_views(dataset_metadata@));
    }
    let table = assemble(dataset_metadata);
    to_csv(&table)
}

} // verus!
