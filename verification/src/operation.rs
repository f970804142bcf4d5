//! The three operations of the service: submit a query, poll its execution,
//! fetch its results.

use crate::ident::is_execution_id;
use crate::ident::random_uuid;
use crate::lifecycle::enqueue;
use crate::lifecycle::enqueue_view;
use crate::model::GetQueryExecutionResponse;
use crate::model::GetQueryResultsResponse;
use crate::model::Param;
use crate::model::QueryProcess;
use crate::model::Row;
use crate::model::StartQueryExecutionResponse;
use crate::paginator::fetch;
use crate::paginator::fetch_page;
use crate::paginator::page_size;
use crate::paginator::size_or_default;
use crate::paginator::FetchError;
use crate::rows::csv_table;
use crate::rows::RowSource;
use crate::rows::RowSourceView;
use crate::sql::lemma_join_is_refused;
use crate::sql::parsed_statements;
use crate::sql::table_of_text;
use crate::sql::text_bytes;
use crate::sql::FromItemView;
use crate::sql::StatementView;
use crate::sql::MAX_NESTING;
use crate::sql::MAX_QUERY_BYTES;
use crate::sql::table_reference;
use crate::sql::QueryError;
use crate::state::QueryState;
use crate::store::found_view;
use crate::store::ExecutionStore;
use crate::store::StoreReader;
use crate::store::StoreView;
use crate::text::slice_view;
use crate::text::str_eq;
use crate::text::strings_view;
use crate::text::text_view;
use vstd::prelude::*;

verus! {

/// The header of a request that names its operation.
pub const OPERATION_TARGET_HEADER: &'static str = "X-Amz-Target";

pub const OPERATION_NAME_START_QUERY_EXECUTION: &'static str = "AmazonAthena.StartQueryExecution";

pub const OPERATION_NAME_GET_QUERY_EXECUTION: &'static str = "AmazonAthena.GetQueryExecution";

pub const OPERATION_NAME_GET_QUERY_RESULTS: &'static str = "AmazonAthena.GetQueryResults";

/// The operation that a request asks for.
#[derive(Debug, Clone, Copy, PartialEq, Eq, Structural)]
pub enum Operation {
    StartQueryExecution,
    GetQueryExecution,
    GetQueryResults,
}

/// Why a request was refused.
#[derive(Debug, Clone, Copy, PartialEq, Eq, Structural)]
pub enum OperationError {
    /// The request names no operation.
    MissingTarget,
    /// The request names an operation that does not exist.
    UnexpectedTarget,
    /// The request lacks its body, or the field that the operation reads.
    UnexpectedInput,
    /// The query is refused.
    Query(QueryError),
    /// The identifier drawn for the execution is in use.
    IdInUse,
    /// No execution has the identifier.
    NotFound,
    /// The record of the execution names no state.
    UnknownState,
    /// The execution has not succeeded; the state it is in, if it names one.
    NotReady(Option<QueryState>),
    /// The header of the table cannot be read.
    HeaderUnreadable,
    /// The token is malformed, or holds the offset of no data row.
    InvalidToken,
    /// A record that the page would hold cannot be read.
    RecordUnreadable,
}

/// The operation that a target names.
pub open spec fn operation_named(target: Seq<char>) -> Option<Operation> {
    if target == "AmazonAthena.StartQueryExecution"@ {
        Some(Operation::StartQueryExecution)
    } else if target == "AmazonAthena.GetQueryExecution"@ {
        Some(Operation::GetQueryExecution)
    } else if target == "AmazonAthena.GetQueryResults"@ {
        Some(Operation::GetQueryResults)
    } else {
        None
    }
}

/// The operation that a request asks for, given its target header.
pub open spec fn operation_for(target: Option<Seq<char>>) -> Result<Operation, OperationError> {
    match target {
        None => Err(OperationError::MissingTarget),
        Some(name) => match operation_named(name) {
            Some(operation) => Ok(operation),
            None => Err(OperationError::UnexpectedTarget),
        },
    }
}

/// Resolves the operation of a request from the value of its target header.
pub fn resolve_operation(target: Option<&str>) -> (operation: Result<Operation, OperationError>)
    ensures
        operation == operation_for(slice_view(target)),
{
    match target {
        None => Err(OperationError::MissingTarget),
        Some(name) => {
            if str_eq(name, OPERATION_NAME_START_QUERY_EXECUTION) {
                Ok(Operation::StartQueryExecution)
            } else if str_eq(name, OPERATION_NAME_GET_QUERY_EXECUTION) {
                Ok(Operation::GetQueryExecution)
            } else if str_eq(name, OPERATION_NAME_GET_QUERY_RESULTS) {
                Ok(Operation::GetQueryResults)
            } else {
                Err(OperationError::UnexpectedTarget)
            }
        },
    }
}

/// A request, resolved: the operation it asks for and the fields it carries.
#[derive(Debug, Clone, PartialEq, Eq)]
pub struct Request {
    pub operation: Operation,
    pub input: Param,
}

/// What a request resolves to. The target is looked at first: a request
/// that names no operation is refused for that, whatever it carries.
pub open spec fn request_for(target: Option<Seq<char>>, input: Option<Param>) -> Result<
    Request,
    OperationError,
> {
    match operation_for(target) {
        Err(e) => Err(e),
        Ok(operation) => match input {
            Some(param) => Ok(Request { operation: operation, input: param }),
            None => Err(OperationError::UnexpectedInput),
        },
    }
}

/// Resolves a request from the value of its target header and its body.
pub fn resolve_request(target: Option<&str>, input: Option<Param>) -> (request: Result<
    Request,
    OperationError,
>)
    ensures
        request == request_for(slice_view(target), input),
{
    let operation = resolve_operation(target)?;
    match input {
        Some(param) => Ok(Request { operation: operation, input: param }),
        None => Err(OperationError::UnexpectedInput),
    }
}

/// The table that a submitted query reads, given what the parser made of
/// the query.
pub open spec fn admitted(query: Option<Seq<char>>) -> Result<Seq<char>, OperationError> {
    match query {
        None => Err(OperationError::UnexpectedInput),
        Some(text) => match table_of_text(text) {
            Ok(table) => Ok(table),
            Err(e) => Err(OperationError::Query(e)),
        },
    }
}

/// What a submission under the identifier `id` returns: the table enqueued,
/// or the refusal.
pub open spec fn start_outcome(query: Option<Seq<char>>, id: Seq<char>, store: StoreView) -> Result<
    Seq<char>,
    OperationError,
> {
    match admitted(query) {
        Err(e) => Err(e),
        Ok(table) => if store.staged.dom().contains(id) {
            Err(OperationError::IdInUse)
        } else {
            Ok(table)
        },
    }
}

/// The store after a submission under the identifier `id`.
pub open spec fn start_view(query: Option<Seq<char>>, id: Seq<char>, store: StoreView) -> StoreView {
    match start_outcome(query, id, store) {
        Ok(table) => enqueue_view(store, id, table),
        Err(_) => store,
    }
}

/// The view of a table name that may have been refused.
pub open spec fn name_view(name: Result<String, OperationError>) -> Result<
    Seq<char>,
    OperationError,
> {
    match name {
        Ok(text) => Ok(text@),
        Err(e) => Err(e),
    }
}

/// Whether a submission ended as the outcome says.
pub open spec fn started(
    result: Result<StartQueryExecutionResponse, OperationError>,
    id: Seq<char>,
    outcome: Result<Seq<char>, OperationError>,
) -> bool {
    match result {
        Ok(response) => outcome is Ok && response.query_execution_id@ == id,
        Err(e) => outcome == Err::<Seq<char>, OperationError>(e),
    }
}

/// The table that the query of a request reads, or the refusal of the
/// request.
pub fn admit_query(input: &Param) -> (table: Result<String, OperationError>)
    ensures
        name_view(table) == admitted(text_view(input.query_string)),
{
    match &input.query_string {
        None => Err(OperationError::UnexpectedInput),
        Some(text) => match table_reference(text.as_str()) {
            Ok(table) => Ok(table),
            Err(e) => Err(OperationError::Query(e)),
        },
    }
}

/// Enqueues an execution for `table` under the identifier `id`, unless the
/// identifier is in use.
fn start_under(id: String, table: &str, store: &mut ExecutionStore) -> (result: Result<
    StartQueryExecutionResponse,
    OperationError,
>)
    requires
        old(store).wf(),
    ensures
        final(store).wf(),
        final(store)@ == enqueue_view(old(store)@, id@, table@),
        match result {
            Ok(response) => !old(store)@.staged.dom().contains(id@)
                && response.query_execution_id@ == id@,
            Err(e) => old(store)@.staged.dom().contains(id@) && e == OperationError::IdInUse,
        },
{
    if enqueue(store, id.as_str(), table) {
        Ok(StartQueryExecutionResponse::new(id))
    } else {
        Err(OperationError::IdInUse)
    }
}

/// Submits the query of a request under the identifier `id`: where the query
/// is admitted and the identifier is free, the execution is enqueued and
/// visible as queued on return.
pub fn start_query_execution_as(input: &Param, id: String, store: &mut ExecutionStore) -> (result:
    Result<StartQueryExecutionResponse, OperationError>)
    requires
        old(store).wf(),
    ensures
        final(store).wf(),
        started(result, id@, start_outcome(text_view(input.query_string), id@, old(store)@)),
        final(store)@ == start_view(text_view(input.query_string), id@, old(store)@),
{
    let table = admit_query(input)?;
    start_under(id, table.as_str(), store)
}

/// Submits the query of a request under an identifier drawn at random. A
/// request whose query is refused draws none and leaves the store as it is.
pub fn start_query_execution(input: &Param, store: &mut ExecutionStore) -> (result: Result<
    StartQueryExecutionResponse,
    OperationError,
>)
    requires
        old(store).wf(),
    ensures
        final(store).wf(),
        admitted(text_view(input.query_string)) matches Err(e) ==> result == Err::<
            StartQueryExecutionResponse,
            OperationError,
        >(e) && final(store)@ == old(store)@,
        admitted(text_view(input.query_string)) is Ok ==> exists|id: Seq<char>|
            {
                &&& is_execution_id(id)
                &&& #[trigger] started(
                    result,
                    id,
                    start_outcome(text_view(input.query_string), id, old(store)@),
                )
                &&& final(store)@ == start_view(text_view(input.query_string), id, old(store)@)
            },
        result matches Ok(response) ==> {
            &&& is_execution_id(response.query_execution_id@)
            &&& !old(store)@.staged.dom().contains(response.query_execution_id@)
            &&& final(store)@.lookup(response.query_execution_id@) matches Some(record)
            &&& record.state == QueryState::Queued
            &&& admitted(text_view(input.query_string)) == Ok::<Seq<char>, OperationError>(
                record.table,
            )
        },
{
    let table = admit_query(input)?;
    let id = random_uuid();
    let ghost drawn = id@;
    let result = start_under(id, table.as_str(), store);
    assert(started(result, drawn, start_outcome(text_view(input.query_string), drawn, old(store)@)));
    result
}

/// The identifier under which a submission succeeds is taken by no later
/// submission, whatever was done to the store in between, as long as no
/// record was removed.
pub proof fn lemma_identifiers_are_unique(
    store: StoreView,
    query: Option<Seq<char>>,
    id: Seq<char>,
    later: StoreView,
    later_query: Option<Seq<char>>,
    later_id: Seq<char>,
)
    requires
        start_outcome(query, id, store) is Ok,
        start_view(query, id, store).kept_by(later),
        start_outcome(later_query, later_id, later) is Ok,
    ensures
        later_id != id,
{
    assert(start_view(query, id, store).staged.dom().contains(id));
}

/// A submission of an admitted query is refused only where the identifier
/// drawn for it is in use; a refused submission leaves the store as it is.
pub proof fn lemma_refused_only_in_use(query: Option<Seq<char>>, id: Seq<char>, store: StoreView)
    ensures
        admitted(query) is Ok && !store.staged.dom().contains(id) ==> start_outcome(
            query,
            id,
            store,
        ) is Ok,
        start_outcome(query, id, store) is Err ==> start_view(query, id, store) == store,
        admitted(query) matches Err(e) ==> start_outcome(query, id, store) == Err::<
            Seq<char>,
            OperationError,
        >(e),
{
}

/// A submission whose query the parser reads as one SELECT from one table
/// with joins hanging on it is refused for the joins, under any identifier,
/// and leaves the store as it is.
pub proof fn lemma_joined_query_is_refused(
    query: Seq<char>,
    id: Seq<char>,
    store: StoreView,
    name: Seq<Option<Seq<char>>>,
    joins: usize,
)
    requires
        text_bytes(query) <= MAX_QUERY_BYTES,
        joins > 0,
    ensures
        parsed_statements(query, MAX_NESTING) == Some(
            seq![
                StatementView::Query(
                    Some(seq![(FromItemView { name: Some(name), joins: joins as nat })]),
                ),
            ],
        ) ==> start_outcome(Some(query), id, store) == Err::<Seq<char>, OperationError>(
            OperationError::Query(QueryError::Joined(joins)),
        ) && start_view(Some(query), id, store) == store,
{
    lemma_join_is_refused(name, joins);
}

/// Whether what a reader found is nothing, or a record that names a state.
pub open spec fn names_a_state(found: Option<(Seq<char>, Seq<char>)>) -> bool {
    found matches Some(pair) ==> QueryState::named(pair.1) is Some
}

/// What a poll returns for the record found under `id`.
pub open spec fn status_of(id: Seq<char>, found: Option<(Seq<char>, Seq<char>)>) -> Result<
    (Seq<char>, QueryState),
    OperationError,
> {
    match found {
        None => Err(OperationError::NotFound),
        Some(pair) => match QueryState::named(pair.1) {
            Some(state) => Ok((id, state)),
            None => Err(OperationError::UnknownState),
        },
    }
}

/// The view of the answer to a poll.
pub open spec fn status_view(result: Result<GetQueryExecutionResponse, OperationError>) -> Result<
    (Seq<char>, QueryState),
    OperationError,
> {
    match result {
        Ok(response) => Ok(
            (
                response.query_execution.query_execution_id@,
                response.query_execution.status.state,
            ),
        ),
        Err(e) => Err(e),
    }
}

/// The answer to a poll, given the record found under the identifier.
pub fn execution_status(id: String, found: Option<QueryProcess>) -> (result: Result<
    GetQueryExecutionResponse,
    OperationError,
>)
    ensures
        status_view(result) == status_of(id@, found_view(found)),
{
    match found {
        None => Err(OperationError::NotFound),
        Some(record) => match record.query_state() {
            Some(state) => Ok(GetQueryExecutionResponse::new(id, state)),
            None => Err(OperationError::UnknownState),
        },
    }
}

/// Polls the execution that a request names, in the version of the store
/// that the reader sees.
pub fn get_query_execution(input: &Param, reader: &StoreReader) -> (result: Result<
    GetQueryExecutionResponse,
    OperationError,
>)
    ensures
        input.query_execution_id is None ==> result == Err::<
            GetQueryExecutionResponse,
            OperationError,
        >(OperationError::UnexpectedInput),
        input.query_execution_id matches Some(id) ==> exists|found: Option<(Seq<char>, Seq<char>)>|
            names_a_state(found) && status_view(result) == #[trigger] status_of(id@, found),
        !(result matches Err(OperationError::UnknownState)),
{
    match &input.query_execution_id {
        None => Err(OperationError::UnexpectedInput),
        Some(id) => {
            let found = reader.read(id.as_str());
            let result = execution_status(id.clone(), found);
            assert(names_a_state(found_view(found)));
            assert(status_view(result) == status_of(id@, found_view(found)));
            result
        },
    }
}

/// Polls the execution that a request names, in the store itself.
pub fn get_query_execution_in(input: &Param, store: &ExecutionStore) -> (result: Result<
    GetQueryExecutionResponse,
    OperationError,
>)
    requires
        store.wf(),
    ensures
        status_view(result) == match input.query_execution_id {
            None => Err(OperationError::UnexpectedInput),
            Some(id) => match store@.lookup(id@) {
                None => Err(OperationError::NotFound),
                Some(record) => Ok((id@, record.state)),
            },
        },
{
    match &input.query_execution_id {
        None => Err(OperationError::UnexpectedInput),
        Some(id) => {
            let found = store.read(id.as_str());
            proof {
                if store@.lookup(id@) is Some {
                    QueryState::lemma_name_round_trip(store@.lookup(id@)->0.state);
                }
            }
            execution_status(id.clone(), found)
        },
    }
}

/// The table whose rows a fetch may read, given the record found.
pub open spec fn ready_table(found: Option<(Seq<char>, Seq<char>)>) -> Result<
    Seq<char>,
    OperationError,
> {
    match found {
        None => Err(OperationError::NotFound),
        Some(pair) => if QueryState::named(pair.1) == Some(QueryState::Succeeded) {
            Ok(pair.0)
        } else {
            Err(OperationError::NotReady(QueryState::named(pair.1)))
        },
    }
}

/// The table whose rows a fetch may read: that of the record found, once
/// its execution has succeeded.
pub fn results_table(found: Option<QueryProcess>) -> (table: Result<String, OperationError>)
    ensures
        name_view(table) == ready_table(found_view(found)),
{
    match found {
        None => Err(OperationError::NotFound),
        Some(record) => {
            let state = record.query_state();
            match state {
                Some(QueryState::Succeeded) => Ok(record.table_name),
                _ => Err(OperationError::NotReady(state)),
            }
        },
    }
}

/// Finds the table whose rows a request may fetch, in the version of the
/// store that the reader sees.
pub fn find_query_results(input: &Param, reader: &StoreReader) -> (table: Result<
    String,
    OperationError,
>)
    ensures
        input.query_execution_id is None ==> name_view(table) == Err::<Seq<char>, OperationError>(
            OperationError::UnexpectedInput,
        ),
        input.query_execution_id is Some ==> exists|found: Option<(Seq<char>, Seq<char>)>|
            names_a_state(found) && name_view(table) == #[trigger] ready_table(found),
        !(table matches Err(OperationError::NotReady(None))),
{
    match &input.query_execution_id {
        None => Err(OperationError::UnexpectedInput),
        Some(id) => {
            let found = reader.read(id.as_str());
            let table = results_table(found);
            assert(names_a_state(found_view(found)));
            assert(name_view(table) == ready_table(found_view(found)));
            table
        },
    }
}

/// Finds the table whose rows a request may fetch, in the store itself: the
/// fetch is refused as not ready until the execution has succeeded.
pub fn find_query_results_in(input: &Param, store: &ExecutionStore) -> (table: Result<
    String,
    OperationError,
>)
    requires
        store.wf(),
    ensures
        name_view(table) == match input.query_execution_id {
            None => Err(OperationError::UnexpectedInput),
            Some(id) => match store@.lookup(id@) {
                None => Err(OperationError::NotFound),
                Some(record) => if record.state == QueryState::Succeeded {
                    Ok(record.table)
                } else {
                    Err(OperationError::NotReady(Some(record.state)))
                },
            },
        },
{
    match &input.query_execution_id {
        None => Err(OperationError::UnexpectedInput),
        Some(id) => {
            let found = store.read(id.as_str());
            proof {
                if store@.lookup(id@) is Some {
                    QueryState::lemma_name_round_trip(store@.lookup(id@)->0.state);
                }
            }
            results_table(found)
        },
    }
}

/// A copy of a list of strings.
fn copy_strings(values: &Vec<String>) -> (copy: Vec<String>)
    ensures
        strings_view(copy@) == strings_view(values@),
{
    let mut copy: Vec<String> = Vec::new();
    let mut i: usize = 0;
    while i < values.len()
        invariant
            i <= values.len(),
            copy@.len() == i,
            forall|j: int| 0 <= j < i ==> (#[trigger] copy@[j])@ == values@[j]@,
        decreases values.len() - i,
    {
        copy.push(values[i].clone());
        i += 1;
    }
    assert(strings_view(copy@) =~= strings_view(values@));
    copy
}

/// The refusal that stands for a refused fetch.
pub open spec fn fetch_refusal(e: FetchError) -> OperationError {
    match e {
        FetchError::InvalidToken => OperationError::InvalidToken,
        FetchError::Unreadable => OperationError::RecordUnreadable,
    }
}

/// Whether a response carries the page that a fetch of `source` returns.
pub open spec fn carries_page(
    result: Result<GetQueryResultsResponse, OperationError>,
    table: Seq<char>,
    source: RowSourceView,
    token: Option<Seq<char>>,
    size: u64,
) -> bool {
    match fetch(source, token, size) {
        Ok(page) => {
            &&& result matches Ok(response)
            &&& response.update_count == 0
            &&& response.result_set.rows@.map_values(|r: Row| r@) == page.rows
            &&& text_view(response.next_token) == page.next_token
            &&& response.lists_columns(table, source.header)
        },
        Err(e) => result == Err::<GetQueryResultsResponse, OperationError>(fetch_refusal(e)),
    }
}

/// Whether a response answers a fetch from what the reader made of a
/// document.
pub open spec fn answers_fetch(
    result: Result<GetQueryResultsResponse, OperationError>,
    table: Seq<char>,
    read: Option<RowSourceView>,
    token: Option<Seq<char>>,
    size: u64,
) -> bool {
    match read {
        None => result == Err::<GetQueryResultsResponse, OperationError>(
            OperationError::HeaderUnreadable,
        ),
        Some(source) => carries_page(result, table, source, token, size),
    }
}

/// One page of the rows of `source`, as the answer to a fetch.
pub fn results_page(
    table_name: &str,
    source: &RowSource,
    next_token: &Option<String>,
    max_results: Option<u64>,
) -> (result: Result<GetQueryResultsResponse, OperationError>)
    ensures
        carries_page(
            result,
            table_name@,
            source@,
            text_view(*next_token),
            size_or_default(max_results),
        ),
{
    match fetch_page(source, next_token, page_size(max_results)) {
        Err(FetchError::InvalidToken) => Err(OperationError::InvalidToken),
        Err(FetchError::Unreadable) => Err(OperationError::RecordUnreadable),
        Ok(page) => Ok(
            GetQueryResultsResponse::new(
                table_name.to_owned(),
                copy_strings(&source.header),
                page.rows,
                page.next_token,
            ),
        ),
    }
}

/// Fetches one page of results for a request, out of the CSV document that
/// holds the table of the execution.
pub fn get_query_results(input: &Param, table_name: &str, document: &[u8]) -> (result: Result<
    GetQueryResultsResponse,
    OperationError,
>)
    ensures
        answers_fetch(
            result,
            table_name@,
            csv_table(document@),
            text_view(input.next_token),
            size_or_default(input.max_results),
        ),
{
    match RowSource::from_csv(document) {
        None => Err(OperationError::HeaderUnreadable),
        Some(source) => results_page(table_name, &source, &input.next_token, input.max_results),
    }
}

} // verus!
