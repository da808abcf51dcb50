use gov_data::csv_writer::to_csv;
use gov_data::csv_writer::write_csv;
use gov_data::error::AppError;
use gov_data::fetch::FetchOutcome;
use gov_data::run::finish_run;
use gov_data::run::summarize;
use gov_data::run::RunSummary;
use gov_data::table::assemble;
use gov_data::table::data_row;
use gov_data::table::found_records;
use gov_data::table::header_row;
use gov_data::table::widest;
use gov_data::table::Table;
use gov_data::DatasetMetadata;

const FIXED: [&str; 8] =
    ["id", "title", "description", "license", "organization", "created", "modified", "format"];

fn record(id: &str) -> DatasetMetadata {
    DatasetMetadata {
        id: id.to_string(),
        title: format!("title of {}", id),
        description: "about".to_string(),
        license: "OGL".to_string(),
        organization: "Org".to_string(),
        created: "2020-01-01".to_string(),
        modified: "2020-01-02".to_string(),
        format: "CSV".to_string(),
    }
}

fn urls(n: usize) -> Vec<String> {
    (1..=n).map(|i| format!("u{}", i)).collect()
}

fn with_urls(lengths: &[usize]) -> Vec<(DatasetMetadata, Vec<String>)> {
    lengths.iter().enumerate().map(|(i, n)| (record(&format!("r{}", i)), urls(*n))).collect()
}

fn strings(cells: &[&str]) -> Vec<String> {
    cells.iter().map(|s| s.to_string()).collect()
}

#[test]
fn one_column_for_each_url_of_the_widest_record() {
    let records = with_urls(&[0, 2, 1]);
    assert_eq!(widest(&records), 2);
    let table = assemble(&records);
    let mut header = strings(&FIXED);
    header.push("download_url_1".to_string());
    header.push("download_url_2".to_string());
    assert_eq!(table.header, header);
    assert_eq!(table.rows.len(), 3);
    for row in &table.rows {
        assert_eq!(row.len(), 10);
    }
    assert_eq!(table.rows[0][8], "");
    assert_eq!(table.rows[0][9], "");
    assert_eq!(table.rows[1][8], "u1");
    assert_eq!(table.rows[1][9], "u2");
    assert_eq!(table.rows[2][8], "u1");
    assert_eq!(table.rows[2][9], "");
    assert_eq!(
        table.rows[2][..8].to_vec(),
        strings(&["r2", "title of r2", "about", "OGL", "Org", "2020-01-01", "2020-01-02", "CSV"])
    );
}

#[test]
fn no_records_give_the_fixed_header_alone() {
    let table = assemble(&[]);
    assert_eq!(table.header, strings(&FIXED));
    assert!(table.rows.is_empty());
    assert_eq!(widest(&[]), 0);
    assert_eq!(
        String::from_utf8(write_csv(&[]).unwrap()).unwrap(),
        "id,title,description,license,organization,created,modified,format\n"
    );
}

#[test]
fn records_without_urls_give_no_url_column() {
    let table = assemble(&with_urls(&[0, 0]));
    assert_eq!(table.header, strings(&FIXED));
    assert_eq!(table.rows.len(), 2);
    assert_eq!(table.rows[0].len(), 8);
}

#[test]
fn url_columns_are_numbered_in_decimal() {
    let header = header_row(12);
    assert_eq!(header.len(), 20);
    assert_eq!(header[8], "download_url_1");
    assert_eq!(header[16], "download_url_9");
    assert_eq!(header[17], "download_url_10");
    assert_eq!(header[19], "download_url_12");
    let header = header_row(101);
    assert_eq!(header[8 + 98], "download_url_99");
    assert_eq!(header[8 + 99], "download_url_100");
    assert_eq!(header[8 + 100], "download_url_101");
    assert_eq!(header_row(0), strings(&FIXED));
}

#[test]
fn a_row_is_padded_up_to_the_width() {
    let row = data_row(&record("r"), &urls(2), 4);
    assert_eq!(
        row,
        strings(&[
            "r", "title of r", "about", "OGL", "Org", "2020-01-01", "2020-01-02", "CSV", "u1", "u2",
            "", ""
        ])
    );
    assert_eq!(data_row(&record("r"), &urls(2), 2).len(), 10);
    assert_eq!(data_row(&record("r"), &urls(0), 0).len(), 8);
}

#[test]
fn only_found_outcomes_become_records() {
    let outcomes = vec![
        FetchOutcome::NotFound,
        FetchOutcome::Found(record("a"), urls(1)),
        FetchOutcome::Failed("timeout".to_string()),
        FetchOutcome::Found(record("b"), urls(0)),
        FetchOutcome::NotFound,
    ];
    assert_eq!(summarize(&outcomes), RunSummary { written: 2, not_found: 2, failed: 1 });
    let records = found_records(outcomes);
    assert_eq!(records.len(), 2);
    assert_eq!(records[0].0.id, "a");
    assert_eq!(records[0].1, urls(1));
    assert_eq!(records[1].0.id, "b");
    assert!(found_records(vec![FetchOutcome::NotFound]).is_empty());
    assert!(found_records(Vec::new()).is_empty());
    assert_eq!(summarize(&Vec::new()), RunSummary { written: 0, not_found: 0, failed: 0 });
}

#[test]
fn the_table_is_written_line_by_line() {
    let bytes = write_csv(&with_urls(&[0, 2, 1])).unwrap();
    assert_eq!(
        String::from_utf8(bytes).unwrap(),
        "id,title,description,license,organization,created,modified,format,download_url_1,download_url_2\n\
         r0,title of r0,about,OGL,Org,2020-01-01,2020-01-02,CSV,,\n\
         r1,title of r1,about,OGL,Org,2020-01-01,2020-01-02,CSV,u1,u2\n\
         r2,title of r2,about,OGL,Org,2020-01-01,2020-01-02,CSV,u1,\n"
    );
}

#[test]
fn fields_are_quoted_where_they_must_be() {
    let table = Table {
        header: strings(&["a", "b", "c", "d", "e", "f"]),
        rows: vec![
            strings(&["x,y", "say \"hi\"", "two\nlines", "cr\rhere", " spaced ", "caf\u{e9}"]),
            strings(&["\"", "", ",", "'", ";", "\t"]),
        ],
    };
    assert_eq!(
        String::from_utf8(to_csv(&table).unwrap()).unwrap(),
        "a,b,c,d,e,f\n\
         \"x,y\",\"say \"\"hi\"\"\",\"two\nlines\",\"cr\rhere\", spaced ,caf\u{e9}\n\
         \"\"\"\",,\",\",',;,\t\n"
    );
}

#[test]
fn a_line_that_would_be_empty_is_a_pair_of_quotes() {
    let table = Table { header: strings(&[""]), rows: vec![strings(&[""]), strings(&["x"])] };
    assert_eq!(String::from_utf8(to_csv(&table).unwrap()).unwrap(), "\"\"\n\"\"\nx\n");
    let table = Table { header: Vec::new(), rows: vec![Vec::new()] };
    assert_eq!(String::from_utf8(to_csv(&table).unwrap()).unwrap(), "\"\"\n\"\"\n");
    let table = Table { header: strings(&["", ""]), rows: Vec::new() };
    assert_eq!(String::from_utf8(to_csv(&table).unwrap()).unwrap(), ",\n");
}

#[test]
fn a_table_that_is_no_rectangle_is_refused() {
    let table = Table { header: strings(&["a", "b"]), rows: vec![strings(&["1", "2"]), strings(&["1"])] };
    assert!(matches!(to_csv(&table), Err(AppError::Csv(_))));
    let table = Table { header: strings(&["a"]), rows: vec![strings(&["1", "2"])] };
    assert!(matches!(to_csv(&table), Err(AppError::Csv(_))));
    let table = Table { header: Vec::new(), rows: vec![strings(&[""])] };
    assert!(matches!(to_csv(&table), Err(AppError::Csv(_))));
}

#[test]
fn a_refused_table_leaves_nothing_behind_for_the_next() {
    let bad = Table { header: strings(&["a", "b"]), rows: vec![strings(&["1"]), strings(&["2"])] };
    assert!(matches!(to_csv(&bad), Err(AppError::Csv(_))));
    let good = Table { header: strings(&["a"]), rows: vec![strings(&["1"]), strings(&["2"])] };
    assert_eq!(String::from_utf8(to_csv(&good).unwrap()).unwrap(), "a\n1\n2\n");
}

#[test]
fn the_same_outcomes_give_the_same_bytes() {
    let outcomes = || {
        vec![
            FetchOutcome::Found(record("a"), urls(2)),
            FetchOutcome::Failed("x".to_string()),
            FetchOutcome::Found(record("b, \"c\""), urls(0)),
        ]
    };
    let (first, summary) = finish_run(outcomes()).unwrap();
    let (second, _) = finish_run(outcomes()).unwrap();
    assert_eq!(first, second);
    assert_eq!(summary, RunSummary { written: 2, not_found: 0, failed: 1 });
    assert_eq!(
        String::from_utf8(first).unwrap(),
        "id,title,description,license,organization,created,modified,format,download_url_1,download_url_2\n\
         a,title of a,about,OGL,Org,2020-01-01,2020-01-02,CSV,u1,u2\n\
         \"b, \"\"c\"\"\",\"title of b, \"\"c\"\"\",about,OGL,Org,2020-01-01,2020-01-02,CSV,,\n"
    );
}

#[test]
fn a_failure_does_not_change_the_rows_of_the_others() {
    let with_failure = vec![
        FetchOutcome::Found(record("a"), urls(1)),
        FetchOutcome::Failed("operation timed out".to_string()),
        FetchOutcome::Found(record("c"), urls(3)),
    ];
    let without = vec![
        FetchOutcome::Found(record("a"), urls(1)),
        FetchOutcome::Found(record("c"), urls(3)),
    ];
    let (bytes, summary) = finish_run(with_failure).unwrap();
    assert_eq!(bytes, finish_run(without).unwrap().0);
    assert_eq!(summary, RunSummary { written: 2, not_found: 0, failed: 1 });
    let (bytes, summary) = finish_run(vec![FetchOutcome::Failed("x".to_string())]).unwrap();
    assert_eq!(
        String::from_utf8(bytes).unwrap(),
        "id,title,description,license,organization,created,modified,format\n"
    );
    assert_eq!(summary, RunSummary { written: 0, not_found: 0, failed: 1 });
}
