//! The table that a query reads.
//!
//! A query is accepted where it is one statement, a plain SELECT, whose FROM
//! clause names one table and joins nothing to it. The table may be written
//! alone or behind a schema (`schema.table`); the schema is not kept.
//!
//! The parser follows nesting by recursion, and the tree it builds is
//! released by recursion. So the text that it is given is bounded in length,
//! and the nesting that it follows is bounded in depth: what is longer is
//! refused before it is parsed, what is deeper is refused by the parser.

use sqlparser::ast::Statement;
use sqlparser::ast::TableFactor;
use sqlparser::dialect::GenericDialect;
use sqlparser::parser::Parser;
use vstd::prelude::*;
use vstd::utf8::encode_utf8;

verus! {

/// The longest query, in bytes, that is handed to the parser.
pub const MAX_QUERY_BYTES: usize = 16384;

/// The depth of nesting that the parser is allowed to follow.
pub const MAX_NESTING: usize = 10;

/// One item of a FROM clause.
#[derive(Debug, Clone, PartialEq, Eq)]
pub struct FromItem {
    /// The dotted name of the table that the item starts with, or `None`
    /// where it starts with anything else: a subquery, a table function, a
    /// nested join. Each part of the name is `Some` identifier, or `None`
    /// where the part is no plain identifier.
    pub name: Option<Vec<Option<String>>>,
    /// The number of joins that hang on what the item starts with.
    pub joins: usize,
}

/// The outline of one parsed statement.
#[derive(Debug, Clone, PartialEq, Eq)]
pub enum StatementShape {
    /// A query. Where its body is one plain SELECT, the items of its FROM
    /// clause; `None` where the body is of another form: a set operation,
    /// VALUES, a query in brackets.
    Query(Option<Vec<FromItem>>),
    /// A statement that is no query.
    NotQuery,
}

pub struct FromItemView {
    pub name: Option<Seq<Option<Seq<char>>>>,
    pub joins: nat,
}

pub enum StatementView {
    Query(Option<Seq<FromItemView>>),
    NotQuery,
}

/// Why a query was refused.
#[derive(Debug, Clone, Copy, PartialEq, Eq, Structural)]
pub enum QueryError {
    /// The text is longer than `MAX_QUERY_BYTES`.
    TooLong,
    /// The parser could not read the text, or met nesting deeper than
    /// `MAX_NESTING`.
    Unparseable,
    /// The text holds this many statements, not one.
    StatementCount(usize),
    /// The statement is no query.
    NotQuery,
    /// The query is not one plain SELECT.
    NotSelect,
    /// The FROM clause holds this many items, not one.
    FromCount(usize),
    /// The FROM item is no table named by identifiers.
    NotTable,
    /// This many joins hang on the table.
    Joined(usize),
    /// The table's name has this many parts, neither one nor two.
    NameParts(usize),
}

pub open spec fn part_view(part: Option<String>) -> Option<Seq<char>> {
    match part {
        Some(name) => Some(name@),
        None => None,
    }
}

/// The parts of a dotted name.
pub open spec fn parts_view(parts: Seq<Option<String>>) -> Seq<Option<Seq<char>>> {
    parts.map_values(|p: Option<String>| part_view(p))
}

impl View for FromItem {
    type V = FromItemView;

    open spec fn view(&self) -> FromItemView {
        FromItemView {
            name: match self.name {
                Some(parts) => Some(parts_view(parts@)),
                None => None,
            },
            joins: self.joins as nat,
        }
    }
}

impl View for StatementShape {
    type V = StatementView;

    open spec fn view(&self) -> StatementView {
        match self {
            StatementShape::Query(Some(from)) => StatementView::Query(
                Some(from@.map_values(|f: FromItem| f@)),
            ),
            StatementShape::Query(None) => StatementView::Query(None),
            StatementShape::NotQuery => StatementView::NotQuery,
        }
    }
}

pub open spec fn statements_view(statements: Seq<StatementShape>) -> Seq<StatementView> {
    statements.map_values(|s: StatementShape| s@)
}

/// The view of a parse that may have failed.
pub open spec fn parse_view(parsed: Option<Vec<StatementShape>>) -> Option<Seq<StatementView>> {
    match parsed {
        Some(statements) => Some(statements_view(statements@)),
        None => None,
    }
}

/// The view of a table name that may have been refused.
pub open spec fn table_view(table: Result<String, QueryError>) -> Result<Seq<char>, QueryError> {
    match table {
        Ok(name) => Ok(name@),
        Err(e) => Err(e),
    }
}

/// The length of a text in bytes.
pub open spec fn text_bytes(text: Seq<char>) -> nat {
    encode_utf8(text).len()
}

/// The table in a dotted name: the last of one or two parts.
pub open spec fn table_in_name(name: Seq<Option<Seq<char>>>) -> Result<Seq<char>, QueryError> {
    if name.len() == 1 || name.len() == 2 {
        match name.last() {
            Some(table) => Ok(table),
            None => Err(QueryError::NotTable),
        }
    } else {
        Err(QueryError::NameParts(name.len() as usize))
    }
}

/// A query whose table has joins hanging on it is refused, whatever else the
/// statement holds.
pub proof fn lemma_join_is_refused(name: Seq<Option<Seq<char>>>, joins: usize)
    requires
        joins > 0,
    ensures
        table_of(
            seq![
                StatementView::Query(
                    Some(seq![(FromItemView { name: Some(name), joins: joins as nat })]),
                ),
            ],
        ) == Err::<Seq<char>, QueryError>(QueryError::Joined(joins)),
{
}

/// The table that a FROM item names.
pub open spec fn table_in_item(item: FromItemView) -> Result<Seq<char>, QueryError> {
    match item.name {
        None => Err(QueryError::NotTable),
        Some(name) => if item.joins != 0 {
            Err(QueryError::Joined(item.joins as usize))
        } else {
            table_in_name(name)
        },
    }
}

/// The table that a statement reads.
pub open spec fn table_in_statement(statement: StatementView) -> Result<Seq<char>, QueryError> {
    match statement {
        StatementView::NotQuery => Err(QueryError::NotQuery),
        StatementView::Query(None) => Err(QueryError::NotSelect),
        StatementView::Query(Some(from)) => if from.len() != 1 {
            Err(QueryError::FromCount(from.len() as usize))
        } else {
            table_in_item(from[0])
        },
    }
}

/// The table that a list of statements reads: that of its only statement.
pub open spec fn table_of(statements: Seq<StatementView>) -> Result<Seq<char>, QueryError> {
    if statements.len() != 1 {
        Err(QueryError::StatementCount(statements.len() as usize))
    } else {
        table_in_statement(statements[0])
    }
}

/// The table that a query reads, given what the parser made of it.
pub open spec fn table_of_parse(parsed: Option<Seq<StatementView>>) -> Result<
    Seq<char>,
    QueryError,
> {
    match parsed {
        Some(statements) => table_of(statements),
        None => Err(QueryError::Unparseable),
    }
}

/// The outlines of the statements that the SQL parser reads from a text
/// while it follows nesting to the depth given, or `None` where the parser
/// reports an error.
pub uninterp spec fn parsed_statements(sql: Seq<char>, depth: usize) -> Option<Seq<StatementView>>;

/// The table that a text reads as a query, or the reason why it is refused.
pub open spec fn table_of_text(query: Seq<char>) -> Result<Seq<char>, QueryError> {
    if text_bytes(query) > MAX_QUERY_BYTES {
        Err(QueryError::TooLong)
    } else {
        table_of_parse(parsed_statements(query, MAX_NESTING))
    }
}

/// Runs `sqlparser::parser::Parser` on a text: `new` with the generic
/// dialect, `with_recursion_limit` with the depth given, `try_with_sql` and
/// `parse_statements`; and copies the outline out of each statement that
/// comes back: whether it is a query, whether the query's body is a plain
/// SELECT, and for each item of its FROM clause the parts of the table's name
/// and the number of joins. The parser reports what it cannot read, and
/// nesting beyond the depth, as an error. The bounds keep within the stack
/// both the parser's recursion and the release of the tree, whose depth the
/// length of the text bounds.
#[verifier::external_body]
fn parse_statements(sql: &str, depth: usize) -> (parsed: Option<Vec<StatementShape>>)
    requires
        text_bytes(sql@) <= MAX_QUERY_BYTES,
        depth <= MAX_NESTING,
    ensures
        parse_view(parsed) == parsed_statements(sql@, depth),
{
    let text = Parser::new(&GenericDialect {}).with_recursion_limit(depth).try_with_sql(sql);
    let ast = text.ok()?.parse_statements().ok()?;
    Some(ast.iter().map(|s| match s {
        Statement::Query(q) => StatementShape::Query(q.body.as_select().map(|sel| {
            sel.from.iter().map(|t| FromItem {
                name: match &t.relation {
                    TableFactor::Table { name, .. } => Some(
                        name.0.iter().map(|p| p.as_ident().map(|i| i.value.clone())).collect()),
                    _ => None,
                },
                joins: t.joins.len(),
            }).collect()
        })),
        _ => StatementShape::NotQuery,
    }).collect())
}

/// The table in a dotted name.
fn name_table(name: &Vec<Option<String>>) -> (table: Result<String, QueryError>)
    ensures
        table_view(table) == table_in_name(parts_view(name@)),
{
    let n = name.len();
    if n == 1 || n == 2 {
        match &name[n - 1] {
            Some(table) => Ok(table.clone()),
            None => Err(QueryError::NotTable),
        }
    } else {
        Err(QueryError::NameParts(n))
    }
}

/// The table that parsed statements read, or the reason why they are refused.
pub fn select_table(statements: &Vec<StatementShape>) -> (table: Result<String, QueryError>)
    ensures
        table_view(table) == table_of(statements_view(statements@)),
{
    if statements.len() != 1 {
        return Err(QueryError::StatementCount(statements.len()));
    }
    match &statements[0] {
        StatementShape::NotQuery => Err(QueryError::NotQuery),
        StatementShape::Query(None) => Err(QueryError::NotSelect),
        StatementShape::Query(Some(from)) => {
            if from.len() != 1 {
                return Err(QueryError::FromCount(from.len()));
            }
            let item = &from[0];
            match &item.name {
                None => Err(QueryError::NotTable),
                Some(name) => {
                    if item.joins != 0 {
                        Err(QueryError::Joined(item.joins))
                    } else {
                        name_table(name)
                    }
                },
            }
        },
    }
}

/// The table that a query reads, or the reason why the query is refused. A
/// text of more than `MAX_QUERY_BYTES` bytes is refused unread.
pub fn table_reference(query: &str) -> (table: Result<String, QueryError>)
    ensures
        table_view(table) == table_of_text(query@),
{
    if query.as_bytes().len() > MAX_QUERY_BYTES {
        return Err(QueryError::TooLong);
    }
    match parse_statements(query, MAX_NESTING) {
        Some(statements) => select_table(&statements),
        None => Err(QueryError::Unparseable),
    }
}

} // verus!
