//! The table of new papers: one CSV row per paper under a header row, grown
//! row by row and started afresh after each delivered notification.

use vstd::prelude::*;
use vstd::string::*;
use crate::paper::{Paper, PaperView};
use crate::trigger::RotationPermit;

verus! {

/// `csv::Error`, why a record could not be written. It is only ever dropped.
#[verifier::external_type_specification]
#[verifier::external_body]
pub struct ExCsvError(csv::Error);

/// The bytes of the CSV line that holds `fields`, terminator included, where
/// such a line can be written.
pub uninterp spec fn csv_line(fields: Seq<Seq<char>>) -> Option<Seq<u8>>;

/// `csv::Writer::write_record` on a writer into memory made by
/// `csv::Writer::from_writer`, read back by `into_inner`: the line that the
/// writer puts out for one record. The bytes depend on the fields alone.
#[verifier::external_body]
fn encode_record(fields: &Vec<String>) -> (r: Result<Vec<u8>, csv::Error>)
    ensures
        match r {
            Ok(line) => csv_line(fields.deep_view()) == Some(line@),
            Err(_) => csv_line(fields.deep_view()) is None,
        },
{
    let mut writer = csv::Writer::from_writer(Vec::new());
    writer.write_record(fields)?;
    writer.into_inner().map_err(|e| csv::Error::from(e.into_error()))
}

/// A record that could not be put into a CSV line.
#[derive(Clone, Copy, Debug, PartialEq, Eq, Structural)]
pub enum LogError {
    /// The header row could not be encoded.
    Header,
    /// The paper's row could not be encoded.
    Row,
}

/// The names of the four columns, in the order of the table.
pub open spec fn header_columns() -> Seq<Seq<char>> {
    seq!["keyword"@, "title"@, "journal"@, "href"@]
}

/// What one more paper adds to a table: its row, after the header row where
/// the table is still empty.
pub open spec fn chunk(started: bool, header: Seq<u8>, row: Seq<u8>) -> Seq<u8> {
    if started {
        row
    } else {
        header + row
    }
}

/// What appending `p` adds to a table, or why it cannot be appended.
pub open spec fn chunk_for(started: bool, p: PaperView) -> Result<Seq<u8>, LogError> {
    match csv_line(Paper::columns(p)) {
        None => Err(LogError::Row),
        Some(row) => if started {
            Ok(row)
        } else {
            match csv_line(header_columns()) {
                None => Err(LogError::Header),
                Some(header) => Ok(header + row),
            }
        },
    }
}

/// The mathematical content of a `PaperLog`.
pub struct LogView {
    /// Everything written to the current table.
    pub content: Seq<u8>,
    /// Whether the current table has its header row.
    pub started: bool,
}

impl LogView {
    /// A table with nothing in it.
    pub open spec fn empty() -> LogView {
        LogView { content: Seq::empty(), started: false }
    }

    /// The table after one more paper, given the header row and the paper's row.
    pub open spec fn with_row(self, header: Seq<u8>, row: Seq<u8>) -> LogView {
        LogView { content: self.content + chunk(self.started, header, row), started: true }
    }

    /// The table after `p` was appended; unchanged where `p` cannot be encoded.
    pub open spec fn append(self, p: PaperView) -> LogView {
        match chunk_for(self.started, p) {
            Ok(c) => LogView { content: self.content + c, started: true },
            Err(_) => self,
        }
    }

    /// The table after each of `papers` was appended in turn.
    pub open spec fn append_all(self, papers: Seq<PaperView>) -> LogView
        decreases papers.len(),
    {
        if papers.len() == 0 {
            self
        } else {
            self.append_all(papers.drop_last()).append(papers.last())
        }
    }
}

/// The rows of those of `papers` that can be encoded, one after the other.
pub open spec fn rows_of(papers: Seq<PaperView>) -> Seq<u8>
    decreases papers.len(),
{
    if papers.len() == 0 {
        Seq::empty()
    } else {
        match csv_line(Paper::columns(papers.last())) {
            Some(row) => rows_of(papers.drop_last()) + row,
            None => rows_of(papers.drop_last()),
        }
    }
}

/// How many of `papers` can be encoded.
pub open spec fn row_count(papers: Seq<PaperView>) -> nat
    decreases papers.len(),
{
    if papers.len() == 0 {
        0
    } else if csv_line(Paper::columns(papers.last())) is Some {
        row_count(papers.drop_last()) + 1
    } else {
        row_count(papers.drop_last())
    }
}

/// The table that appending `papers` to an empty table gives: the header
/// row, then the row of each paper that can be encoded, each once and in
/// the order of appending. It is empty where no row can be written.
pub open spec fn table_of(papers: Seq<PaperView>) -> LogView {
    match csv_line(header_columns()) {
        Some(header) if row_count(papers) > 0 => LogView {
            content: header + rows_of(papers),
            started: true,
        },
        _ => LogView::empty(),
    }
}

/// Appending papers to an empty table gives the header row followed by the
/// papers' rows, each once and in the order of appending.
pub proof fn lemma_table_layout(papers: Seq<PaperView>)
    ensures
        LogView::empty().append_all(papers) == table_of(papers),
    decreases papers.len(),
{
    if papers.len() > 0 {
        let front = papers.drop_last();
        lemma_table_layout(front);
        match (csv_line(header_columns()), csv_line(Paper::columns(papers.last()))) {
            (Some(header), Some(row)) => {
                if row_count(front) == 0 {
                    lemma_no_rows(front);
                    assert(Seq::<u8>::empty() + (header + row) =~= header + (rows_of(front) + row));
                } else {
                    assert((header + rows_of(front)) + row =~= header + (rows_of(front) + row));
                }
            },
            _ => {},
        }
    }
}

/// Where no paper can be encoded there are no rows.
proof fn lemma_no_rows(papers: Seq<PaperView>)
    requires
        row_count(papers) == 0,
    ensures
        rows_of(papers) == Seq::<u8>::empty(),
    decreases papers.len(),
{
    if papers.len() > 0 {
        lemma_no_rows(papers.drop_last());
    }
}

/// The table of new papers as it stands in memory. Each append hands back the
/// bytes that belong at the end of the durable copy.
#[derive(Debug)]
pub struct PaperLog {
    content: Vec<u8>,
    started: bool,
}

impl View for PaperLog {
    type V = LogView;

    closed spec fn view(&self) -> LogView {
        LogView { content: self.content@, started: self.started }
    }
}

impl PaperLog {
    /// An empty table.
    pub fn new() -> (r: PaperLog)
        ensures
            r@ == LogView::empty(),
    {
        PaperLog { content: Vec::new(), started: false }
    }

    /// Adds one paper's row, given the encoded header row and the encoded row
    /// of the paper, and returns what was added.
    pub fn record(&mut self, header: &Vec<u8>, row: &Vec<u8>) -> (added: Vec<u8>)
        ensures
            final(self)@ == old(self)@.with_row(header@, row@),
            added@ == chunk(old(self)@.started, header@, row@),
    {
        let mut added: Vec<u8> = Vec::new();
        if !self.started {
            extend_bytes(&mut added, header);
        }
        extend_bytes(&mut added, row);
        extend_bytes(&mut self.content, &added);
        self.started = true;
        added
    }

    /// Appends `paper` and returns the bytes to write at the end of the
    /// durable copy. Where the row, or the header it needs, cannot be
    /// encoded, nothing changes.
    pub fn append(&mut self, paper: &Paper) -> (r: Result<Vec<u8>, LogError>)
        ensures
            final(self)@ == old(self)@.append(paper@),
            match chunk_for(old(self)@.started, paper@) {
                Ok(c) => r is Ok && r->Ok_0@ == c,
                Err(e) => r == Err::<Vec<u8>, LogError>(e),
            },
    {
        let row = match encode_record(&paper.fields()) {
            Ok(row) => row,
            Err(_) => {
                return Err(LogError::Row);
            },
        };
        let header = if self.started {
            Vec::new()
        } else {
            match encode_record(&header_fields()) {
                Ok(header) => header,
                Err(_) => {
                    return Err(LogError::Header);
                },
            }
        };
        Ok(self.record(&header, &row))
    }

    /// Everything written to the current table.
    pub fn snapshot(&self) -> (r: Vec<u8>)
        ensures
            r@ == self@.content,
    {
        let mut r: Vec<u8> = Vec::new();
        extend_bytes(&mut r, &self.content);
        r
    }

    /// Whether the current table holds no row yet.
    pub fn is_fresh(&self) -> (r: bool)
        ensures
            r == !self@.started,
    {
        !self.started
    }

    /// Starts a new, empty table. The permit shows that the notification
    /// which carried the old table went through.
    pub fn rotate(&mut self, permit: RotationPermit)
        ensures
            final(self)@ == LogView::empty(),
    {
        self.content = Vec::new();
        self.started = false;
    }
}

/// The names of the four columns.
fn header_fields() -> (r: Vec<String>)
    ensures
        r.deep_view() == header_columns(),
{
    let mut r: Vec<String> = Vec::new();
    r.push(String::from_str("keyword"));
    r.push(String::from_str("title"));
    r.push(String::from_str("journal"));
    r.push(String::from_str("href"));
    assert(r.deep_view() =~= header_columns());
    r
}

/// Copies `more` to the end of `bytes`.
pub(crate) fn extend_bytes(bytes: &mut Vec<u8>, more: &Vec<u8>)
    ensures
        final(bytes)@ == old(bytes)@ + more@,
{
    let mut i: usize = 0;
    while i < more.len()
        invariant
            i <= more.len(),
            bytes@ == old(bytes)@ + more@.take(i as int),
        decreases more.len() - i,
    {
        bytes.push(more[i]);
        assert(more@.take(i + 1) =~= more@.take(i as int).push(more@[i as int]));
        i += 1;
    }
    assert(more@.take(more.len() as int) =~= more@);
}

} // verus!
