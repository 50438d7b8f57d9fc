use nyaa::extract::{extract, rows_to_records, RowCells};
use nyaa::model::Torrent;

fn row_html(cols: &[&str]) -> String {
    let mut s = String::from("<html><body><table><tbody><tr>");
    for c in cols {
        s.push_str("<td>");
        s.push_str(c);
        s.push_str("</td>");
    }
    s.push_str("</tr></tbody></table></body></html>");
    s
}

const FULL_ROW: &[&str] = &[
    "cat",
    r#"<a href="/view/1" title="Show A">Show A</a>"#,
    r#"<a href="/view/1">dl</a><a href="magnet:?xt=abc">m</a>"#,
    "1.2 GiB",
    "2024-01-0123:59",
    "12",
    "3",
    "100",
];

#[test]
fn one_full_row_yields_the_expected_record() {
    let html = row_html(FULL_ROW);
    let records = extract(&html);
    assert_eq!(
        records,
        vec![Torrent {
            title: "Show A".to_string(),
            link: "https://nyaa.si/view/1".to_string(),
            magnet_url: "magnet:?xt=abc".to_string(),
            date: "2024-01-01".to_string(),
            seeders: 12,
            leechers: 3,
            downloads: 100,
            size: "1.2 GiB".to_string(),
        }]
    );
}

#[test]
fn output_no_longer_than_rows_and_titles_nonempty() {
    let mut body = String::from("<html><body><table><tbody>");
    // A good row, a row missing its title anchor, a row missing everything.
    body.push_str(r#"<tr><td>c</td><td><a href="/t">T</a></td><td><a href="/view/9">d</a></td>"#);
    body.push_str(r#"<td>1 MiB</td><td>2024-02-02</td><td>1</td><td>2</td><td>3</td></tr>"#);
    body.push_str(r#"<tr><td>c</td><td>no anchor</td><td><a href="/view/8">d</a></td>"#);
    body.push_str(r#"<td>1 MiB</td><td>2024-02-02</td><td>1</td><td>2</td><td>3</td></tr>"#);
    body.push_str("<tr><td>c</td></tr>");
    body.push_str("</tbody></table></body></html>");
    let records = extract(&body);
    assert!(records.len() <= 3);
    assert_eq!(records.len(), 1);
    for r in &records {
        assert!(!r.title.is_empty());
        assert!(!r.link.is_empty());
    }
}

#[test]
fn missing_numeric_columns_default_to_zero() {
    // Only five columns: title, links, size and date are there, the three
    // numeric columns are absent.
    let html = row_html(&[
        "cat",
        r#"<a href="/view/2">Show B</a>"#,
        r#"<a href="/view/2">d</a>"#,
        "3 MiB",
        "2024-03-03",
    ]);
    let records = extract(&html);
    assert_eq!(records.len(), 1);
    assert_eq!(records[0].seeders, 0);
    assert_eq!(records[0].leechers, 0);
    assert_eq!(records[0].downloads, 0);
}

#[test]
fn unparseable_numeric_columns_default_to_zero() {
    let html = row_html(&[
        "cat",
        r#"<a href="/view/3">Show C</a>"#,
        r#"<a href="/view/3">d</a>"#,
        "3 MiB",
        "2024-03-03",
        "1,234",
        "-",
        "many",
    ]);
    let records = extract(&html);
    assert_eq!(records.len(), 1);
    assert_eq!(records[0].seeders, 0);
    assert_eq!(records[0].leechers, 0);
    assert_eq!(records[0].downloads, 0);
}

#[test]
fn plus_signed_numeric_columns_parse() {
    let mut row: Vec<&str> = FULL_ROW.to_vec();
    row[5] = "+12";
    let html = row_html(&row);
    let records = extract(&html);
    assert_eq!(records.len(), 1);
    assert_eq!(records[0].seeders, 12);
}

#[test]
fn row_missing_title_is_absent() {
    let good = row_html(FULL_ROW);
    let records_good = extract(&good);
    let mut bad_row: Vec<&str> = FULL_ROW.to_vec();
    bad_row[1] = "plain text, no anchor";
    let bad = row_html(&bad_row);
    let records_bad = extract(&bad);
    assert_eq!(records_good.len(), 1);
    assert_eq!(records_bad.len(), 0);
}

#[test]
fn row_missing_detail_link_is_absent() {
    let mut bad_row: Vec<&str> = FULL_ROW.to_vec();
    bad_row[2] = "no anchors here";
    let bad = row_html(&bad_row);
    assert_eq!(extract(&bad).len(), 0);
}

#[test]
fn whitespace_only_title_is_absent() {
    let mut bad_row: Vec<&str> = FULL_ROW.to_vec();
    bad_row[1] = r#"<a href="/view/1">   </a>"#;
    let bad = row_html(&bad_row);
    assert_eq!(extract(&bad).len(), 0);
}

#[test]
fn title_and_size_are_trimmed() {
    let mut row: Vec<&str> = FULL_ROW.to_vec();
    row[1] = r#"<a href="/view/1">  Show A  </a>"#;
    row[3] = "  1.2 GiB  ";
    let html = row_html(&row);
    let records = extract(&html);
    assert_eq!(records.len(), 1);
    assert_eq!(records[0].title, "Show A");
    assert_eq!(records[0].size, "1.2 GiB");
}

#[test]
fn date_is_clipped_to_ten_characters() {
    let html = row_html(FULL_ROW);
    let records = extract(&html);
    assert_eq!(records[0].date, "2024-01-01");
    assert!(records[0].date.chars().count() <= 10);
}

#[test]
fn short_date_is_kept_whole() {
    let mut row: Vec<&str> = FULL_ROW.to_vec();
    row[4] = "2024";
    let html = row_html(&row);
    let records = extract(&html);
    assert_eq!(records[0].date, "2024");
}

#[test]
fn missing_magnet_becomes_empty_string() {
    let mut row: Vec<&str> = FULL_ROW.to_vec();
    row[2] = r#"<a href="/view/1">only the detail link</a>"#;
    let html = row_html(&row);
    let records = extract(&html);
    assert_eq!(records.len(), 1);
    assert_eq!(records[0].magnet_url, "");
}

#[test]
fn empty_table_yields_no_records() {
    let html = "<html><body><table><tbody></tbody></table></body></html>";
    assert_eq!(extract(html).len(), 0);
}

#[test]
fn document_without_table_yields_no_records() {
    assert_eq!(extract("<html><body><p>nothing</p></body></html>").len(), 0);
}

#[test]
fn garbage_input_yields_no_records_without_failing() {
    assert_eq!(extract("<<<>>>&&& not html at all \u{0000}").len(), 0);
}

fn cell(s: &str) -> Option<String> {
    Some(s.to_string())
}

#[test]
fn rows_to_records_applies_the_field_policy() {
    let rows = vec![
        RowCells {
            title: cell(" T "),
            link: cell("/view/7"),
            magnet: None,
            size: cell("9 MiB"),
            date: cell("2020-05-05extra"),
            seeders: cell(" 4 "),
            leechers: None,
            downloads: cell("nope"),
        },
        RowCells {
            title: None,
            link: cell("/view/8"),
            magnet: cell("magnet:?x"),
            size: cell("1"),
            date: cell("2020"),
            seeders: cell("1"),
            leechers: cell("1"),
            downloads: cell("1"),
        },
    ];
    let records = rows_to_records(&rows);
    assert_eq!(records.len(), 1);
    let r = &records[0];
    assert_eq!(r.title, "T");
    assert_eq!(r.link, "https://nyaa.si/view/7");
    assert_eq!(r.magnet_url, "");
    assert_eq!(r.date, "2020-05-05");
    assert_eq!(r.seeders, 4);
    assert_eq!(r.leechers, 0);
    assert_eq!(r.downloads, 0);
    assert_eq!(r.size, "9 MiB");
}
