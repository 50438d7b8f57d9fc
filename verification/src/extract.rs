//! The HTML result-extraction pipeline: an HTML document goes through
//! scraper's parser and the fixed structural selectors, each candidate row
//! becomes a `RowCells` of plain optional strings, and verified logic turns
//! those cells into validated records under a per-field policy: title and
//! detail link required (the title non-empty once trimmed), magnet link
//! optional, date clipped to ten characters, counts defaulting to zero.
//!
//! A failure on one row is swallowed: that row contributes nothing.

use vstd::prelude::*;

use crate::model::{Torrent, TorrentV};
use crate::text::{parse_u32, parse_u32_spec, trim_str, trimmed_of};
use crate::url::{base_url, base_url_spec, lemma_base_url_nonempty};

verus! {

/// What one candidate row offered, before validation: each cell's raw text
/// or attribute, where it was found at all.
pub struct RowCells {
    pub title: Option<String>,
    pub link: Option<String>,
    pub magnet: Option<String>,
    pub size: Option<String>,
    pub date: Option<String>,
    pub seeders: Option<String>,
    pub leechers: Option<String>,
    pub downloads: Option<String>,
}

/// The mathematical value of a `RowCells`.
#[verifier::ext_equal]
pub struct RowCellsV {
    pub title: Option<Seq<char>>,
    pub link: Option<Seq<char>>,
    pub magnet: Option<Seq<char>>,
    pub size: Option<Seq<char>>,
    pub date: Option<Seq<char>>,
    pub seeders: Option<Seq<char>>,
    pub leechers: Option<Seq<char>>,
    pub downloads: Option<Seq<char>>,
}

impl View for RowCells {
    type V = RowCellsV;

    open spec fn view(&self) -> RowCellsV {
        RowCellsV {
            title: self.title.deep_view(),
            link: self.link.deep_view(),
            magnet: self.magnet.deep_view(),
            size: self.size.deep_view(),
            date: self.date.deep_view(),
            seeders: self.seeders.deep_view(),
            leechers: self.leechers.deep_view(),
            downloads: self.downloads.deep_view(),
        }
    }
}

impl DeepView for RowCells {
    type V = RowCellsV;

    open spec fn deep_view(&self) -> RowCellsV {
        self.view()
    }
}

/// What scraper's parser and the fixed structural selectors yield for a
/// document: per candidate row, in document order, each cell's raw text or
/// `href`. The result depends on the document text alone.
pub uninterp spec fn rows_of(html: Seq<char>) -> Seq<RowCellsV>;

/// Relies on `scraper::Html::parse_document` (parses any input without
/// failing hard), `Selector::parse` (the fixed selector strings here are
/// valid selector text — the unwrap cannot panic), `Html::select`,
/// `ElementRef::select`, `text` and `attr`: gathers the cells of every row
/// under a table body, in document order, a deterministic function of the
/// document text.
#[verifier::external_body]
fn scan_rows(html: &str) -> (rows: Vec<RowCells>)
    ensures
        rows.deep_view() == rows_of(html@),
{
    let p = |s: &str| scraper::Selector::parse(s).unwrap();
    scraper::Html::parse_document(html).select(&p("table>tbody>tr")).map(|e| {
        let t = |s: &str| e.select(&p(s)).next().map(|x| x.text().collect());
        let a = |s: &str| e.select(&p(s)).next().and_then(|x| x.attr("href")).map(String::from);
        RowCells {
            title: t("td:nth-of-type(2)>a:not(.comments)"),
            link: a("td:nth-of-type(3)>a:first-child"),
            magnet: a("td:nth-of-type(3)>a:nth-child(2)"),
            size: t("td:nth-of-type(4)"),
            date: t("td:nth-of-type(5)"),
            seeders: t("td:nth-of-type(6)"),
            leechers: t("td:nth-of-type(7)"),
            downloads: t("td:nth-of-type(8)"),
        }
    }).collect()
}

/// A date cell is clipped to its first ten characters; the site renders a
/// timestamp suffix that is discarded.
pub open spec fn clip10(s: Seq<char>) -> Seq<char> {
    if s.len() <= 10 {
        s
    } else {
        s.subrange(0, 10)
    }
}

/// A count cell parses to its value; a missing or unparseable cell counts
/// as zero and never fails the row.
pub open spec fn count_of(cell: Option<Seq<char>>) -> u32 {
    match cell {
        Some(s) => match parse_u32_spec(trimmed_of(s)) {
            Some(n) => n,
            None => 0,
        },
        None => 0,
    }
}

/// The per-field policy that turns one row's cells into a record, or into
/// nothing: title, detail link, size and date cells are required and the
/// trimmed title must be non-empty; the detail link resolves against the
/// base URL; the magnet link defaults to empty; the counts default to zero.
pub open spec fn record_of_row(row: RowCellsV) -> Option<TorrentV> {
    match (row.title, row.link, row.size, row.date) {
        (Some(t), Some(l), Some(sz), Some(d)) => {
            if trimmed_of(t).len() == 0 {
                None
            } else {
                Some(
                    TorrentV {
                        title: trimmed_of(t),
                        link: base_url_spec() + l,
                        magnet_url: match row.magnet {
                            Some(m) => m,
                            None => Seq::empty(),
                        },
                        date: clip10(trimmed_of(d)),
                        seeders: count_of(row.seeders),
                        leechers: count_of(row.leechers),
                        downloads: count_of(row.downloads),
                        size: trimmed_of(sz),
                    },
                )
            }
        },
        _ => None,
    }
}

/// The records of a whole sequence of rows, in document order, rows that
/// yield nothing skipped.
pub open spec fn records_spec(rows: Seq<RowCellsV>) -> Seq<TorrentV>
    decreases rows.len(),
{
    if rows.len() == 0 {
        Seq::empty()
    } else {
        records_spec(rows.drop_last()) + match record_of_row(rows.last()) {
            Some(t) => seq![t],
            None => Seq::empty(),
        }
    }
}

fn count_cell(cell: &Option<String>) -> (r: u32)
    ensures
        r == count_of(cell.deep_view()),
{
    match cell {
        Some(s) => {
            let t = trim_str(s.as_str());
            match parse_u32(t.as_str()) {
                Some(n) => n,
                None => 0,
            }
        },
        None => 0,
    }
}

fn clip_prefix(s: &str, k: usize) -> (r: String)
    ensures
        r@ == if s@.len() <= k {
            s@
        } else {
            s@.subrange(0, k as int)
        },
{
    let n = s.unicode_len();
    if n <= k {
        s.to_owned()
    } else {
        s.substring_char(0, k).to_owned()
    }
}

/// Validate one row's cells, exactly as `record_of_row` says.
pub fn torrent_of_row(row: &RowCells) -> (r: Option<Torrent>)
    ensures
        r is Some <==> record_of_row(row@) is Some,
        r matches Some(t) ==> t@ == record_of_row(row@)->0,
{
    let title_raw = match &row.title {
        Some(t) => t,
        None => { return None; },
    };
    let link_path = match &row.link {
        Some(l) => l,
        None => { return None; },
    };
    let size_raw = match &row.size {
        Some(s) => s,
        None => { return None; },
    };
    let date_raw = match &row.date {
        Some(d) => d,
        None => { return None; },
    };
    let title = trim_str(title_raw.as_str());
    if title.as_str().is_empty() {
        return None;
    }
    let mut link = String::from_str(base_url());
    link.append(link_path.as_str());
    let magnet_url = match &row.magnet {
        Some(m) => m.clone(),
        None => String::new(),
    };
    let date_trimmed = trim_str(date_raw.as_str());
    let date = clip_prefix(date_trimmed.as_str(), 10);
    let size = trim_str(size_raw.as_str());
    let t = Torrent {
        title,
        link,
        magnet_url,
        date,
        seeders: count_cell(&row.seeders),
        leechers: count_cell(&row.leechers),
        downloads: count_cell(&row.downloads),
        size,
    };
    assert(t@ =~= record_of_row(row@)->0);
    Some(t)
}

/// Turn the rows' cells into the validated records, exactly as
/// `records_spec` says: document order kept, failed rows skipped.
pub fn rows_to_records(rows: &Vec<RowCells>) -> (r: Vec<Torrent>)
    ensures
        r.deep_view() == records_spec(rows.deep_view()),
{
    let mut out: Vec<Torrent> = Vec::new();
    let mut i: usize = 0;
    while i < rows.len()
        invariant
            i <= rows.len(),
            out.deep_view() == records_spec(rows.deep_view().subrange(0, i as int)),
        decreases rows.len() - i,
    {
        let ghost prev = out.deep_view();
        let added = torrent_of_row(&rows[i]);
        match added {
            Some(t) => out.push(t),
            None => {},
        }
        proof {
            let rv = rows.deep_view();
            let pre = rv.subrange(0, i as int);
            let cur = rv.subrange(0, i as int + 1);
            assert(cur.drop_last() =~= pre);
            assert(cur.last() == rows[i as int]@);
            match record_of_row(rows[i as int]@) {
                Some(tv) => {
                    assert(out.deep_view() =~= prev.push(added->0@));
                    assert(prev.push(tv) =~= prev + seq![tv]);
                },
                None => {},
            }
            assert(out.deep_view() =~= records_spec(cur));
        }
        i = i + 1;
    }
    proof {
        assert(rows.deep_view().subrange(0, rows.len() as int) =~= rows.deep_view());
    }
    out
}

/// A record extraction may emit: non-empty title, non-empty detail link,
/// date of at most ten characters.
pub open spec fn wf_record(t: TorrentV) -> bool {
    &&& t.title.len() > 0
    &&& t.link.len() > 0
    &&& t.date.len() <= 10
}

/// Extraction yields at most one record per candidate row, and every record
/// it yields has a non-empty title and a non-empty detail link.
pub proof fn lemma_extract_bounded(rows: Seq<RowCellsV>)
    ensures
        records_spec(rows).len() <= rows.len(),
        forall|i: int|
            0 <= i < records_spec(rows).len() ==> (#[trigger] records_spec(rows)[i]).title.len() > 0
                && records_spec(rows)[i].link.len() > 0,
    decreases rows.len(),
{
    lemma_base_url_nonempty();
    if rows.len() > 0 {
        lemma_extract_bounded(rows.drop_last());
    }
}

/// Every record extraction yields carries a date of at most ten characters.
pub proof fn lemma_extract_date_len(rows: Seq<RowCellsV>)
    ensures
        forall|i: int|
            0 <= i < records_spec(rows).len() ==> (#[trigger] records_spec(rows)[i]).date.len()
                <= 10,
    decreases rows.len(),
{
    if rows.len() > 0 {
        lemma_extract_date_len(rows.drop_last());
        match record_of_row(rows.last()) {
            Some(tv) => {
                assert(tv.date.len() <= 10);
                assert(records_spec(rows) == records_spec(rows.drop_last()) + seq![tv]);
            },
            None => {
                assert(records_spec(rows) =~= records_spec(rows.drop_last()));
            },
        }
    }
}

/// A row whose numeric cells are all missing still yields its record, with
/// seeders, leechers and downloads all zero.
pub proof fn lemma_missing_counts_zero(row: RowCellsV)
    requires
        row.seeders is None,
        row.leechers is None,
        row.downloads is None,
        record_of_row(row) is Some,
    ensures
        record_of_row(row)->0.seeders == 0,
        record_of_row(row)->0.leechers == 0,
        record_of_row(row)->0.downloads == 0,
{
}

/// A row missing its title or its first (detail) link is absent from the
/// output: the remaining rows alone yield exactly the same records, so the
/// row count is down by exactly that one row.
pub proof fn lemma_bad_row_skipped(rows: Seq<RowCellsV>, j: int)
    requires
        0 <= j < rows.len(),
        rows[j].title is None || rows[j].link is None,
    ensures
        records_spec(rows) == records_spec(rows.remove(j)),
    decreases rows.len(),
{
    if j == rows.len() - 1 {
        assert(rows.remove(j) =~= rows.drop_last());
    } else {
        lemma_bad_row_skipped(rows.drop_last(), j);
        assert(rows.remove(j).drop_last() =~= rows.drop_last().remove(j));
        assert(rows.remove(j).last() == rows.last());
    }
}

/// Extract the validated records of an HTML document: exactly the records
/// of what the parser and the fixed selectors found, document order kept,
/// malformed rows skipped one by one, never failing as a whole; at most
/// one record per candidate row, and every emitted record is well formed.
pub fn extract(html: &str) -> (r: Vec<Torrent>)
    ensures
        r.deep_view() == records_spec(rows_of(html@)),
        r.deep_view().len() <= rows_of(html@).len(),
        forall|i: int| 0 <= i < r.deep_view().len() ==> wf_record(#[trigger] r.deep_view()[i]),
{
    let cells = scan_rows(html);
    let r = rows_to_records(&cells);
    proof {
        lemma_extract_bounded(cells.deep_view());
        lemma_extract_date_len(cells.deep_view());
    }
    r
}

} // verus!
