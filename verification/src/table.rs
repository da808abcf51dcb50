//! The table that a run writes: which outcomes become rows, which columns
//! there are, and what stands in each cell.

use vstd::prelude::*;
use vstd::string::StringExecFns;
use crate::fetch::DatasetMetadata;
use crate::fetch::FetchOutcome;
use crate::fetch::MetadataView;
use crate::fetch::OutcomeView;
use crate::text::decimal;
use crate::text::decimal_text;
use crate::text::texts;

verus! {

/// A record with its download URLs, as plain values.
pub type RecordView = (MetadataView, Seq<Seq<char>>);

/// The table: a header and one row for each record, every row as wide as the
/// header.
#[derive(Debug)]
pub struct Table {
    pub header: Vec<String>,
    pub rows: Vec<Vec<String>>,
}

/// A table as plain values.
pub struct TableView {
    pub header: Seq<Seq<char>>,
    pub rows: Seq<Seq<Seq<char>>>,
}

impl View for Table {
    type V = TableView;

    open spec fn view(&self) -> TableView {
        TableView {
            header: texts(self.header@),
            rows: self.rows@.map_values(|row: Vec<String>| texts(row@)),
        }
    }
}

/// The views of records with their URLs.
pub open spec fn record_views(records: Seq<(DatasetMetadata, Vec<String>)>) -> Seq<RecordView> {
    records.map_values(|record: (DatasetMetadata, Vec<String>)| (record.0@, texts(record.1@)))
}

/// The records that were found, in the order of their outcomes. Outcomes that
/// are `NotFound` or `Failed` leave no trace.
pub open spec fn found(outcomes: Seq<OutcomeView>) -> Seq<RecordView>
    decreases outcomes.len(),
{
    if outcomes.len() == 0 {
        Seq::empty()
    } else {
        let before = found(outcomes.drop_last());
        match outcomes.last() {
            OutcomeView::Found(record, urls) => before.push((record, urls)),
            _ => before,
        }
    }
}

/// The greatest number of download URLs that any record has, 0 for no
/// records.
pub open spec fn max_urls(records: Seq<RecordView>) -> nat
    decreases records.len(),
{
    if records.len() == 0 {
        0
    } else {
        let before = max_urls(records.drop_last());
        let here = records.last().1.len();
        if here > before {
            here
        } else {
            before
        }
    }
}

/// The eight columns that every table has.
pub open spec fn fixed_columns() -> Seq<Seq<char>> {
    seq![
        "id"@,
        "title"@,
        "description"@,
        "license"@,
        "organization"@,
        "created"@,
        "modified"@,
        "format"@,
    ]
}

/// The name of the column of the `number`-th download URL, counted from 1.
pub open spec fn url_column(number: nat) -> Seq<char> {
    "download_url_"@ + decimal_text(number)
}

/// The header of a table with `width` URL columns.
pub open spec fn header_cells(width: nat) -> Seq<Seq<char>> {
    fixed_columns() + Seq::new(width, |i: int| url_column((i + 1) as nat))
}

/// The eight fixed cells of a record's row.
pub open spec fn fixed_cells(record: MetadataView) -> Seq<Seq<char>> {
    seq![
        record.id,
        record.title,
        record.description,
        record.license,
        record.organization,
        record.created,
        record.modified,
        record.format,
    ]
}

/// The URL cells of a row: the record's URLs in order, then empty cells up to
/// `width`.
pub open spec fn url_cells(urls: Seq<Seq<char>>, width: nat) -> Seq<Seq<char>> {
    Seq::new(
        width,
        |i: int|
            if i < urls.len() {
                urls[i]
            } else {
                Seq::empty()
            },
    )
}

/// The row of one record in a table with `width` URL columns.
pub open spec fn row_cells(record: RecordView, width: nat) -> Seq<Seq<char>> {
    fixed_cells(record.0) + url_cells(record.1, width)
}

/// The table of `records`.
pub open spec fn table_of(records: Seq<RecordView>) -> TableView {
    TableView {
        header: header_cells(max_urls(records)),
        rows: Seq::new(records.len(), |i: int| row_cells(records[i], max_urls(records))),
    }
}

/// No record has more URLs than `max_urls` says, and where there are records
/// one of them has exactly that many.
pub proof fn lemma_max_urls(records: Seq<RecordView>)
    ensures
        forall|i: int| 0 <= i < records.len() ==> (#[trigger] records[i]).1.len() <= max_urls(records),
        records.len() > 0 ==> exists|i: int|
            0 <= i < records.len() && (#[trigger] records[i]).1.len() == max_urls(records),
    decreases records.len(),
{
    if records.len() > 0 {
        let before = records.drop_last();
        lemma_max_urls(before);
        assert forall|i: int| 0 <= i < records.len() implies (#[trigger] records[i]).1.len()
            <= max_urls(records) by {
            if i < before.len() {
                assert(before[i] == records[i]);
            }
        }
        if records.last().1.len() > max_urls(before) || before.len() == 0 {
            assert(records[records.len() - 1].1.len() == max_urls(records));
        } else {
            let i = choose|i: int| 0 <= i < before.len() && (#[trigger] before[i]).1.len() == max_urls(before);
            assert(records[i] == before[i]);
        }
    }
}

/// The table is a rectangle: it has one row for each record, and every row
/// is as wide as the header, eight cells and one for each URL column. A row
/// shows its record's URLs in order and is empty behind them.
pub proof fn lemma_table_is_rectangular(records: Seq<RecordView>)
    ensures
        table_of(records).header.len() == 8 + max_urls(records),
        table_of(records).rows.len() == records.len(),
        forall|i: int|
            0 <= i < records.len() ==> (#[trigger] table_of(records).rows[i]).len() == table_of(
                records,
            ).header.len(),
        forall|i: int, j: int|
            0 <= i < records.len() && 0 <= j < max_urls(records) ==> #[trigger] table_of(records).rows[i][8
                + j] == if j < records[i].1.len() {
                records[i].1[j]
            } else {
                Seq::<char>::empty()
            },
{
    lemma_max_urls(records);
}

/// What a failed or absent outcome adds to the records that were found:
/// nothing. The rows of the other outcomes are the same with it as without.
pub proof fn lemma_found_skips_failures(outcomes: Seq<OutcomeView>, index: int)
    requires
        0 <= index < outcomes.len(),
        !(outcomes[index] is Found),
    ensures
        found(outcomes) == found(outcomes.remove(index)),
    decreases outcomes.len(),
{
    let last = outcomes.len() - 1;
    if index == last {
        assert(outcomes.remove(index) =~= outcomes.drop_last());
    } else {
        let shorter = outcomes.remove(index);
        assert(shorter.drop_last() =~= outcomes.drop_last().remove(index));
        assert(shorter.last() == outcomes.last());
        lemma_found_skips_failures(outcomes.drop_last(), index);
    }
}

/// Keeps the records that were found, in the order of their outcomes, and
/// drops the outcomes that are `NotFound` or `Failed`.
pub fn found_records(outcomes: Vec<FetchOutcome>) -> (records: Vec<(DatasetMetadata, Vec<String>)>)
    ensures
        record_views(records@) == found(outcomes@.map_values(|o: FetchOutcome| o@)),
{
    let ghost views = outcomes@.map_values(|o: FetchOutcome| o@);
    let mut records: Vec<(DatasetMetadata, Vec<String>)> = Vec::new();
    for outcome in it: outcomes
        invariant
            it.seq().len() == views.len(),
            forall|i: int| 0 <= i < views.len() ==> (#[trigger] it.seq()[i])@ == views[i],
            record_views(records@) == found(views.take(it.index() as int)),
    {
        proof {
            let next = views.take(it.index() + 1);
            assert(next.drop_last() =~= views.take(it.index() as int));
            assert(next.last() == outcome@);
        }
        let ghost before = records@;
        match outcome {
            FetchOutcome::Found(record, urls) => {
                records.push((record, urls));
                assert(record_views(records@) =~= record_views(before).push((record@, texts(urls@))));
            },
            _ => {},
        }
    }
    proof {
        assert(views.take(views.len() as int) =~= views);
    }
    records
}

/// The greatest number of download URLs that any of `records` has.
pub fn widest(records: &[(DatasetMetadata, Vec<String>)]) -> (width: usize)
    ensures
        width == max_urls(record_views(records@)),
{
    let ghost views = record_views(records@);
    let mut width: usize = 0;
    let mut i: usize = 0;
    while i < records.len()
        invariant
            i <= records.len(),
            views == record_views(records@),
            width == max_urls(views.take(i as int)),
        decreases records.len() - i,
    {
        proof {
            let next = views.take(i as int + 1);
            assert(next.drop_last() =~= views.take(i as int));
            assert(next.last().1.len() == records@[i as int].1@.len());
        }
        if records[i].1.len() > width {
            width = records[i].1.len();
        }
        i += 1;
    }
    proof {
        assert(views.take(records.len() as int) =~= views);
    }
    width
}

/// The header of a table with `width` URL columns: the eight fixed columns,
/// then `download_url_1` up to `download_url_` and `width`.
pub fn header_row(width: usize) -> (header: Vec<String>)
    ensures
        texts(header@) == header_cells(width as nat),
{
    let mut header: Vec<String> = Vec::new();
    header.push(String::from_str("id"));
    header.push(String::from_str("title"));
    header.push(String::from_str("description"));
    header.push(String::from_str("license"));
    header.push(String::from_str("organization"));
    header.push(String::from_str("created"));
    header.push(String::from_str("modified"));
    header.push(String::from_str("format"));
    let mut i: usize = 0;
    while i < width
        invariant
            i <= width,
            header@.len() == 8 + i,
            texts(header@).take(8) == fixed_columns(),
            forall|k: int| 0 <= k < i ==> (#[trigger] header@[8 + k])@ == url_column((k + 1) as nat),
        decreases width - i,
    {
        i += 1;
        let ghost before = header@;
        header.push(String::from_str("download_url_").concat(decimal(i).as_str()));
        assert(texts(header@).take(8) =~= texts(before).take(8));
    }
    assert(texts(header@) =~= header_cells(width as nat)) by {
        let cells = header_cells(width as nat);
        assert(cells.len() == 8 + width);
        assert forall|k: int| 0 <= k < 8 + width implies texts(header@)[k] == cells[k] by {
            if k < 8 {
                assert(texts(header@).take(8)[k] == texts(header@)[k]);
            } else {
                assert(header@[8 + (k - 8)]@ == url_column((k - 8 + 1) as nat));
            }
        }
    }
    header
}

/// The row of one record in a table with `width` URL columns: its eight
/// fields, its URLs in order, and empty cells up to the width.
pub fn data_row(record: &DatasetMetadata, urls: &Vec<String>, width: usize) -> (row: Vec<String>)
    ensures
        texts(row@) == row_cells((record@, texts(urls@)), width as nat),
{
    let mut row: Vec<String> = Vec::new();
    row.push(record.id.clone());
    row.push(record.title.clone());
    row.push(record.description.clone());
    row.push(record.license.clone());
    row.push(record.organization.clone());
    row.push(record.created.clone());
    row.push(record.modified.clone());
    row.push(record.format.clone());
    assert(texts(row@) =~= fixed_cells(record@));
    let mut i: usize = 0;
    while i < width
        invariant
            i <= width,
            row@.len() == 8 + i,
            texts(row@).take(8) == fixed_cells(record@),
            forall|k: int| 0 <= k < i ==> (#[trigger] row@[8 + k])@ == url_cells(texts(urls@), width as nat)[k],
        decreases width - i,
    {
        let ghost before = row@;
        if i < urls.len() {
            row.push(urls[i].clone());
        } else {
            row.push(String::new());
        }
        assert(texts(row@).take(8) =~= texts(before).take(8));
        i += 1;
    }
    assert(texts(row@) =~= row_cells((record@, texts(urls@)), width as nat)) by {
        let cells = row_cells((record@, texts(urls@)), width as nat);
        assert(cells.len() == 8 + width);
        assert forall|k: int| 0 <= k < 8 + width implies texts(row@)[k] == cells[k] by {
            if k < 8 {
                assert(texts(row@).take(8)[k] == texts(row@)[k]);
            } else {
                assert(row@[8 + (k - 8)]@ == url_cells(texts(urls@), width as nat)[k - 8]);
            }
        }
    }
    row
}

/// Lays `records` out as a table: a header with one URL column for each URL
/// of the record that has most, and a row for each record in the order given,
/// padded with empty cells.
pub fn assemble(records: &[(DatasetMetadata, Vec<String>)]) -> (table: Table)
    ensures
        table@ == table_of(record_views(records@)),
{
    let ghost views = record_views(records@);
    let width = widest(records);
    let header = header_row(width);
    let mut rows: Vec<Vec<String>> = Vec::new();
    let mut i: usize = 0;
    while i < records.len()
        invariant
            i <= records.len(),
            views == record_views(records@),
            width == max_urls(views),
            rows@.len() == i,
            forall|k: int| 0 <= k < i ==> texts((#[trigger] rows@[k])@) == row_cells(views[k], width as nat),
        decreases records.len() - i,
    {
        rows.push(data_row(&records[i].0, &records[i].1, width));
        i += 1;
    }
    let table = Table { header, rows };
    assert(table@.rows =~= table_of(views).rows);
    table
}

} // verus!
