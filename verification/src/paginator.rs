//! Pages of a row source.
//!
//! A fetch without a token starts at the first data row and puts the header
//! row in front of the page. A fetch with a token resumes at the data row
//! whose offset the token holds. Each fetch examines at most `page_size` data
//! rows; where rows remain, the page carries the token of the next unread row.

use crate::model::Row;
use crate::rows::RowSource;
use crate::rows::RowSourceView;
use crate::text::text_view;
use crate::token::decode_token;
use crate::token::encode_token;
use crate::token::lemma_token_round_trip;
use crate::token::offset_token;
use crate::token::token_offset;
use vstd::prelude::*;

verus! {

/// The number of data rows that a fetch examines when the request names none.
pub const DEFAULT_PAGE_SIZE: u64 = 100;

/// One page of results.
#[derive(Debug, Clone, PartialEq, Eq)]
pub struct Page {
    pub rows: Vec<Row>,
    pub next_token: Option<String>,
}

pub struct PageView {
    pub rows: Seq<Seq<Seq<char>>>,
    pub next_token: Option<Seq<char>>,
}

/// Why a fetch was refused.
#[derive(Debug, Clone, Copy, PartialEq, Eq, Structural)]
pub enum FetchError {
    /// The token is malformed, or the offset it holds is that of no data row.
    InvalidToken,
    /// A record that the page would hold could not be read.
    Unreadable,
}

impl View for Page {
    type V = PageView;

    open spec fn view(&self) -> PageView {
        PageView {
            rows: self.rows@.map_values(|r: Row| r@),
            next_token: text_view(self.next_token),
        }
    }
}

/// The view of the outcome of a fetch.
pub open spec fn outcome_view(outcome: Result<Page, FetchError>) -> Result<PageView, FetchError> {
    match outcome {
        Ok(page) => Ok(page@),
        Err(e) => Err(e),
    }
}

/// The page size of a request.
pub open spec fn size_or_default(max_results: Option<u64>) -> u64 {
    match max_results {
        Some(n) => n,
        None => DEFAULT_PAGE_SIZE,
    }
}

/// The offset of the data row at which a fetch starts, or `None` where the
/// token is invalid.
pub open spec fn start_of(token: Option<Seq<char>>, total: nat) -> Option<nat> {
    match token {
        None => Some(0),
        Some(t) => match token_offset(t) {
            Some(k) => if k < total {
                Some(k as nat)
            } else {
                None
            },
            None => None,
        },
    }
}

/// The offset just behind the last data row of the page that starts at `start`.
pub open spec fn page_end(total: nat, start: nat, size: nat) -> nat {
    if start + size < total {
        start + size
    } else {
        total
    }
}

/// The data rows from `start` up to `end`.
pub open spec fn data_rows(records: Seq<Option<Seq<Seq<char>>>>, start: int, end: int) -> Seq<
    Seq<Seq<char>>,
> {
    Seq::new((end - start) as nat, |i: int| records[start + i]->0)
}

/// The rows that open a page: the header on the first page, nothing later.
pub open spec fn leading_rows(source: RowSourceView, token: Option<Seq<char>>) -> Seq<
    Seq<Seq<char>>,
> {
    if token is None {
        seq![source.header]
    } else {
        Seq::empty()
    }
}

/// The token that a page ending at `end` hands on.
pub open spec fn token_after(total: nat, end: nat) -> Option<Seq<char>> {
    if end < total {
        Some(offset_token(end as u64))
    } else {
        None
    }
}

/// What one fetch returns.
pub open spec fn fetch(source: RowSourceView, token: Option<Seq<char>>, size: u64) -> Result<
    PageView,
    FetchError,
> {
    let total = source.records.len();
    match start_of(token, total) {
        None => Err(FetchError::InvalidToken),
        Some(start) => {
            let end = page_end(total, start, size as nat);
            if RowSource::readable(source.records, start as int, end as int) {
                Ok(
                    PageView {
                        rows: leading_rows(source, token) + data_rows(
                            source.records,
                            start as int,
                            end as int,
                        ),
                        next_token: token_after(total, end),
                    },
                )
            } else {
                Err(FetchError::Unreadable)
            }
        },
    }
}

/// The rows that a chain of fetches hands out: each fetch takes the token of
/// the page before it, and the chain ends with the page that carries none.
/// `None` where a fetch is refused or `calls` fetches do not reach the end.
pub open spec fn fetch_chain(
    source: RowSourceView,
    token: Option<Seq<char>>,
    size: u64,
    calls: nat,
) -> Option<Seq<Seq<Seq<char>>>>
    decreases calls,
{
    if calls == 0 {
        None
    } else {
        match fetch(source, token, size) {
            Err(_) => None,
            Ok(page) => match page.next_token {
                None => Some(page.rows),
                Some(next) => match fetch_chain(source, Some(next), size, (calls - 1) as nat) {
                    Some(rest) => Some(page.rows + rest),
                    None => None,
                },
            },
        }
    }
}

/// The page size of a request: what it names, or the default.
pub fn page_size(max_results: Option<u64>) -> (size: u64)
    ensures
        size == size_or_default(max_results),
{
    match max_results {
        Some(n) => n,
        None => DEFAULT_PAGE_SIZE,
    }
}

/// Fetches one page of `source`.
pub fn fetch_page(source: &RowSource, token: &Option<String>, page_size: u64) -> (outcome: Result<
    Page,
    FetchError,
>)
    ensures
        outcome_view(outcome) == fetch(source@, text_view(*token), page_size),
{
    let total = source.records.len();
    let start: usize = match token {
        None => 0,
        Some(t) => match decode_token(t.as_str()) {
            None => {
                return Err(FetchError::InvalidToken);
            },
            Some(k) => {
                if k >= total as u64 {
                    return Err(FetchError::InvalidToken);
                }
                k as usize
            },
        },
    };
    assert(start_of(text_view(*token), total as nat) == Some(start as nat));
    let end: usize = if page_size < (total - start) as u64 {
        start + page_size as usize
    } else {
        total
    };
    assert(end == page_end(total as nat, start as nat, page_size as nat));
    let mut rows: Vec<Row> = Vec::new();
    if token.is_none() {
        rows.push(Row::new(&source.header));
    }
    let ghost lead = leading_rows(source@, text_view(*token));
    assert(rows@.map_values(|r: Row| r@) =~= lead);
    let mut i: usize = start;
    while i < end
        invariant
            start <= i <= end <= total,
            total == source.records.len(),
            start_of(text_view(*token), total as nat) == Some(start as nat),
            end == page_end(total as nat, start as nat, page_size as nat),
            RowSource::readable(source@.records, start as int, i as int),
            rows@.map_values(|r: Row| r@) == lead + data_rows(
                source@.records,
                start as int,
                i as int,
            ),
        decreases end - i,
    {
        match &source.records[i] {
            None => {
                assert(source@.records[i as int] is None);
                return Err(FetchError::Unreadable);
            },
            Some(values) => {
                let row = Row::new(values);
                assert(source@.records[i as int] == Some(row@));
                let ghost before = rows@.map_values(|r: Row| r@);
                rows.push(row);
                assert(rows@.map_values(|r: Row| r@) =~= before.push(row@));
                assert(lead + data_rows(source@.records, start as int, i + 1) =~= (lead
                    + data_rows(source@.records, start as int, i as int)).push(row@));
            },
        }
        i += 1;
    }
    let next_token = if end < total {
        Some(encode_token(end as u64))
    } else {
        None
    };
    Ok(Page { rows: rows, next_token: next_token })
}

/// Token replay: two fetches of the same table with the same token and the
/// same page size return the same page, or are refused alike.
pub proof fn lemma_replay_same_page(
    source: RowSource,
    token: Option<String>,
    size: u64,
    once: Result<Page, FetchError>,
    twice: Result<Page, FetchError>,
)
    requires
        outcome_view(once) == fetch(source@, text_view(token), size),
        outcome_view(twice) == fetch(source@, text_view(token), size),
    ensures
        outcome_view(once) == outcome_view(twice),
{
}

/// The token that a page hands on resumes at the first data row that the
/// page did not reach.
pub proof fn lemma_token_resumes(source: RowSourceView, token: Option<Seq<char>>, size: u64)
    requires
        source.records.len() <= u64::MAX,
        fetch(source, token, size) matches Ok(page) && page.next_token is Some,
    ensures
        start_of(fetch(source, token, size)->Ok_0.next_token, source.records.len()) == Some(
            page_end(
                source.records.len(),
                start_of(token, source.records.len())->0,
                size as nat,
            ),
        ),
{
    let total = source.records.len();
    let start = start_of(token, total)->0;
    let end = page_end(total, start, size as nat);
    lemma_token_round_trip(end as u64);
}

/// A chain of fetches that resumes at the data row `start` hands out the
/// data rows from there to the end, in order.
pub proof fn lemma_chain_from(source: RowSourceView, token: Seq<char>, size: u64, calls: nat)
    requires
        size >= 1,
        source.records.len() <= u64::MAX,
        RowSource::readable(source.records, 0, source.records.len() as int),
        start_of(Some(token), source.records.len()) is Some,
        calls >= source.records.len() - start_of(Some(token), source.records.len())->0,
    ensures
        fetch_chain(source, Some(token), size, calls) == Some(
            data_rows(
                source.records,
                start_of(Some(token), source.records.len())->0 as int,
                source.records.len() as int,
            ),
        ),
    decreases calls,
{
    let total = source.records.len();
    let start = start_of(Some(token), total)->0;
    let end = page_end(total, start, size as nat);
    let page = fetch(source, Some(token), size)->Ok_0;
    assert(page.rows =~= data_rows(source.records, start as int, end as int));
    if end < total {
        let next = offset_token(end as u64);
        lemma_token_round_trip(end as u64);
        lemma_chain_from(source, next, size, (calls - 1) as nat);
        assert(data_rows(source.records, start as int, end as int) + data_rows(
            source.records,
            end as int,
            total as int,
        ) =~= data_rows(source.records, start as int, total as int));
    }
}

/// Pagination round trip: over a table whose records can all be read, with a
/// page size of at least one (or any size, where the table has no data row),
/// the fetches from no token onward hand out the header once, in front, and
/// then every data row once, in order, and end with a page that carries no
/// token.
pub proof fn lemma_pagination_round_trip(source: RowSourceView, size: u64)
    requires
        size >= 1 || source.records.len() == 0,
        source.records.len() <= u64::MAX,
        RowSource::readable(source.records, 0, source.records.len() as int),
    ensures
        fetch_chain(source, None, size, source.records.len() + 1) == Some(
            seq![source.header] + data_rows(source.records, 0, source.records.len() as int),
        ),
{
    let total = source.records.len();
    let end = page_end(total, 0, size as nat);
    let page = fetch(source, None, size)->Ok_0;
    assert(page.rows =~= seq![source.header] + data_rows(source.records, 0, end as int));
    if end < total {
        let next = offset_token(end as u64);
        lemma_token_round_trip(end as u64);
        lemma_chain_from(source, next, size, total);
        assert(seq![source.header] + data_rows(source.records, 0, end as int) + data_rows(
            source.records,
            end as int,
            total as int,
        ) =~= seq![source.header] + data_rows(source.records, 0, total as int));
    }
}

} // verus!
