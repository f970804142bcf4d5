//! The requests and responses of the three operations.

use crate::state::QueryState;
use crate::text::strings_view;
use vstd::prelude::*;

verus! {

/// The answer to a submitted query: the identifier of its execution.
#[derive(Debug, Clone, PartialEq, Eq)]
pub struct StartQueryExecutionResponse {
    pub query_execution_id: String,
}

impl StartQueryExecutionResponse {
    pub fn new(query_execution_id: String) -> (response: Self)
        ensures
            response.query_execution_id == query_execution_id,
    {
        StartQueryExecutionResponse { query_execution_id: query_execution_id }
    }
}

/// The state of an execution, as reported to a client that polls.
#[derive(Debug, Clone, PartialEq, Eq)]
pub struct StatusResponse {
    pub state: QueryState,
}

/// An execution and its status.
#[derive(Debug, Clone, PartialEq, Eq)]
pub struct QueryExecutionResponse {
    pub query_execution_id: String,
    pub status: StatusResponse,
}

/// The answer to a poll.
#[derive(Debug, Clone, PartialEq, Eq)]
pub struct GetQueryExecutionResponse {
    pub query_execution: QueryExecutionResponse,
}

impl GetQueryExecutionResponse {
    pub fn new(query_execution_id: String, state: QueryState) -> (response: Self)
        ensures
            response.query_execution.query_execution_id == query_execution_id,
            response.query_execution.status.state == state,
    {
        GetQueryExecutionResponse {
            query_execution: QueryExecutionResponse {
                query_execution_id: query_execution_id,
                status: StatusResponse { state: state },
            },
        }
    }
}

/// One cell of a result row.
#[derive(Debug, Clone, PartialEq, Eq)]
pub struct Datum {
    pub var_char_value: String,
}

impl View for Datum {
    type V = Seq<char>;

    open spec fn view(&self) -> Seq<char> {
        self.var_char_value@
    }
}

/// One row of a result set, the header row included.
#[derive(Debug, Clone, PartialEq, Eq)]
pub struct Row {
    pub data: Vec<Datum>,
}

impl View for Row {
    type V = Seq<Seq<char>>;

    open spec fn view(&self) -> Seq<Seq<char>> {
        self.data@.map_values(|d: Datum| d@)
    }
}

impl Row {
    /// A row with one cell for each value, in order.
    pub fn new(values: &Vec<String>) -> (row: Self)
        ensures
            row@ == strings_view(values@),
    {
        let mut data: Vec<Datum> = Vec::new();
        let mut i: usize = 0;
        while i < values.len()
            invariant
                i <= values.len(),
                data@.len() == i,
                forall|j: int| 0 <= j < i ==> (#[trigger] data@[j])@ == values@[j]@,
            decreases values.len() - i,
        {
            data.push(Datum { var_char_value: values[i].clone() });
            i += 1;
        }
        let row = Row { data: data };
        assert(row@ =~= strings_view(values@));
        row
    }
}

/// What is known of one column of a result set.
#[derive(Debug, Clone, PartialEq, Eq)]
pub struct ColumnInfo {
    pub table_name: String,
    pub name: String,
    pub label: String,
}

/// The columns of a result set.
#[derive(Debug, Clone, PartialEq, Eq)]
pub struct ResultSetMetadata {
    pub column_info: Vec<ColumnInfo>,
}

/// The rows of one page, with the columns they belong to.
#[derive(Debug, Clone, PartialEq, Eq)]
pub struct ResultSet {
    pub rows: Vec<Row>,
    pub result_set_metadata: ResultSetMetadata,
}

/// The answer to a fetch: one page of rows and, where rows remain, the token
/// that the next fetch resumes from.
#[derive(Debug, Clone, PartialEq, Eq)]
pub struct GetQueryResultsResponse {
    pub update_count: u32,
    pub result_set: ResultSet,
    pub next_token: Option<String>,
}

impl GetQueryResultsResponse {
    /// Whether `info` describes the column `name` of the table `table`.
    pub open spec fn describes(info: ColumnInfo, table: Seq<char>, name: Seq<char>) -> bool {
        &&& info.table_name@ == table
        &&& info.name@ == name
        &&& info.label@ == name
    }

    /// The columns that the response lists stand for `names`, in order, as
    /// columns of `table`.
    pub open spec fn lists_columns(self, table: Seq<char>, names: Seq<Seq<char>>) -> bool {
        let columns = self.result_set.result_set_metadata.column_info@;
        &&& columns.len() == names.len()
        &&& forall|i: int|
            0 <= i < names.len() ==> Self::describes(#[trigger] columns[i], table, names[i])
    }

    pub fn new(
        table_name: String,
        column_names: Vec<String>,
        rows: Vec<Row>,
        next_token: Option<String>,
    ) -> (response: Self)
        ensures
            response.update_count == 0,
            response.result_set.rows == rows,
            response.next_token == next_token,
            response.lists_columns(table_name@, strings_view(column_names@)),
    {
        let mut column_info: Vec<ColumnInfo> = Vec::new();
        let mut i: usize = 0;
        while i < column_names.len()
            invariant
                i <= column_names.len(),
                column_info@.len() == i,
                forall|j: int|
                    0 <= j < i ==> Self::describes(
                        #[trigger] column_info@[j],
                        table_name@,
                        column_names@[j]@,
                    ),
            decreases column_names.len() - i,
        {
            column_info.push(
                ColumnInfo {
                    table_name: table_name.clone(),
                    name: column_names[i].clone(),
                    label: column_names[i].clone(),
                },
            );
            i += 1;
        }
        GetQueryResultsResponse {
            result_set: ResultSet {
                rows: rows,
                result_set_metadata: ResultSetMetadata { column_info: column_info },
            },
            next_token: next_token,
            update_count: 0,
        }
    }
}

/// The fields that a request may carry; each operation reads its own.
#[derive(Debug, Clone, PartialEq, Eq)]
pub struct Param {
    pub query_execution_id: Option<String>,
    pub query_string: Option<String>,
    pub next_token: Option<String>,
    pub max_results: Option<u64>,
}

/// The record that the store keeps of one execution: the table that its
/// query reads, and the name of the state it is in.
#[derive(Debug, PartialEq, Eq, Hash, Clone)]
pub struct QueryProcess {
    pub table_name: String,
    pub state: String,
}

impl View for QueryProcess {
    type V = (Seq<char>, Seq<char>);

    /// The table and the name of the state, as a pair.
    open spec fn view(&self) -> (Seq<char>, Seq<char>) {
        (self.table_name@, self.state@)
    }
}

impl QueryProcess {
    /// The state that the record names, if it names one.
    pub fn query_state(&self) -> (state: Option<QueryState>)
        ensures
            state == QueryState::named(self.state@),
    {
        QueryState::from_name(self.state.as_str())
    }
}

} // verus!
