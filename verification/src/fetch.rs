//! From a response to rows: the envelope is unwrapped, the body is read as
//! JSON, and the row array is found at `table.rows`.

use vstd::prelude::*;
use vstd::string::*;
use crate::cell::{SourceModel, SourceValue};
use crate::json::{error_text, json_document, json_rendering, json_tree, parse_document, value_bool, value_is_null, value_items, value_member, value_number, value_rendering, value_text, JsonTree};
use crate::row::{rows_view, slot_view, RemoteRow, RowModel};
use crate::text::{has_prefix, starts_with};

verus! {

/// How the service frames its JSON payload.
#[derive(Clone, Copy, Debug, PartialEq, Eq)]
pub enum EnvelopeMode {
    /// The body is the JSON document.
    Plain,
    /// The body is the security prefix followed by the JSON document.
    SecurityPrefixed,
}

/// One header of the request: a name and its text.
#[derive(Clone, Debug, PartialEq, Eq)]
pub struct Header {
    pub name: String,
    pub value: String,
}

/// The mathematical content of a [`Header`].
pub struct HeaderModel {
    pub name: Seq<char>,
    pub value: Seq<char>,
}

impl View for Header {
    type V = HeaderModel;

    open spec fn view(&self) -> HeaderModel {
        HeaderModel { name: self.name@, value: self.value@ }
    }
}

/// The content of a header list, header by header.
pub open spec fn headers_view(headers: Seq<Header>) -> Seq<HeaderModel> {
    headers.map_values(|h: Header| h@)
}

/// The header that names the client; every request carries it.
pub open spec fn user_agent_header() -> HeaderModel {
    HeaderModel { name: "user-agent"@, value: "sheet_scan"@ }
}

/// The header that asks the service for the prefixed envelope.
pub open spec fn data_source_header() -> HeaderModel {
    HeaderModel { name: "x-datasource-auth"@, value: "true"@ }
}

/// The headers of the request of a scan: the user agent, and for a
/// prefixed envelope the header that asks for it.
pub open spec fn headers_of(mode: EnvelopeMode) -> Seq<HeaderModel> {
    match mode {
        EnvelopeMode::Plain => seq![user_agent_header()],
        EnvelopeMode::SecurityPrefixed => seq![user_agent_header(), data_source_header()],
    }
}

/// Lists the headers of the request of a scan.
pub fn request_headers(mode: EnvelopeMode) -> (r: Vec<Header>)
    ensures
        headers_view(r@) == headers_of(mode),
{
    let mut headers: Vec<Header> = Vec::new();
    headers.push(Header { name: String::from_str("user-agent"), value: String::from_str("sheet_scan") });
    match mode {
        EnvelopeMode::Plain => {},
        EnvelopeMode::SecurityPrefixed => {
            headers.push(Header { name: String::from_str("x-datasource-auth"), value: String::from_str("true") });
        },
    }
    assert(headers_view(headers@) =~= headers_of(mode));
    headers
}

/// What the transport hands back for the one request of a scan.
#[derive(Clone, Debug, PartialEq, Eq)]
pub enum Response {
    /// The request was answered with this body.
    Body(String),
    /// The request failed; the text says how.
    Failed(String),
}

/// The mathematical content of a [`Response`].
pub enum ResponseModel {
    Body(Seq<char>),
    Failed(Seq<char>),
}

impl View for Response {
    type V = ResponseModel;

    open spec fn view(&self) -> ResponseModel {
        match self {
            Response::Body(s) => ResponseModel::Body(s@),
            Response::Failed(s) => ResponseModel::Failed(s@),
        }
    }
}

/// Where the transport failed.
#[derive(Clone, Copy, Debug, PartialEq, Eq)]
pub enum TransportStage {
    /// The request could not be made or was not answered.
    Request,
    /// The answer came, but its body could not be read as text.
    ReadBody,
}

/// The words that open the report of a transport failure at a stage.
pub open spec fn failure_prefix(stage: TransportStage) -> Seq<char> {
    match stage {
        TransportStage::Request => "Failed to fetch data from Google Sheets: "@,
        TransportStage::ReadBody => "Failed to read response text: "@,
    }
}

/// The report of a transport failure: the words of its stage, then the
/// cause in the transport's own words.
pub open spec fn failure_text(stage: TransportStage, cause: Seq<char>) -> Seq<char> {
    failure_prefix(stage) + cause
}

/// Makes the response that stands for a transport failure at `stage` with
/// the cause `cause`.
pub fn transport_failure(stage: TransportStage, cause: &str) -> (r: Response)
    ensures
        r@ == ResponseModel::Failed(failure_text(stage, cause@)),
{
    let mut text = match stage {
        TransportStage::Request => String::from_str("Failed to fetch data from Google Sheets: "),
        TransportStage::ReadBody => String::from_str("Failed to read response text: "),
    };
    text.append(cause);
    Response::Failed(text)
}

/// Why a fetch gave no rows.
#[derive(Clone, Debug, PartialEq, Eq)]
pub enum FetchError {
    /// The request itself failed; the text is the transport's.
    Transport(String),
    /// The body is empty, or lacks the prefix that the envelope requires.
    InvalidEnvelope,
    /// The unwrapped body is not JSON; the text is the parser's.
    Malformed(String),
    /// The document has no array at `table.rows`.
    UnexpectedShape,
}

/// The mathematical content of a [`FetchError`].
pub enum FetchFault {
    Transport(Seq<char>),
    InvalidEnvelope,
    Malformed(Seq<char>),
    UnexpectedShape,
}

impl View for FetchError {
    type V = FetchFault;

    open spec fn view(&self) -> FetchFault {
        match self {
            FetchError::Transport(s) => FetchFault::Transport(s@),
            FetchError::InvalidEnvelope => FetchFault::InvalidEnvelope,
            FetchError::Malformed(words) => FetchFault::Malformed(words@),
            FetchError::UnexpectedShape => FetchFault::UnexpectedShape,
        }
    }
}

/// The text that reports a fetch error.
pub open spec fn fetch_message(fault: FetchFault) -> Seq<char> {
    match fault {
        FetchFault::Transport(reason) => reason,
        FetchFault::InvalidEnvelope => "invalid response"@,
        FetchFault::Malformed(words) => "Failed to parse JSON: "@ + words,
        FetchFault::UnexpectedShape => "Unexpected JSON structure"@,
    }
}

impl FetchError {
    /// The text that reports this error to a reader. A transport failure
    /// is reported in the transport's own words, text that is not JSON
    /// with the parser's.
    pub fn message(&self) -> (r: String)
        ensures
            r@ == fetch_message(self@),
    {
        match self {
            FetchError::Transport(reason) => reason.clone(),
            FetchError::InvalidEnvelope => String::from_str("invalid response"),
            FetchError::Malformed(words) => {
                let mut text = String::from_str("Failed to parse JSON: ");
                text.append(words.as_str());
                text
            },
            FetchError::UnexpectedShape => String::from_str("Unexpected JSON structure"),
        }
    }
}

/// The content of the outcome of a fetch.
pub open spec fn fetch_view(r: Result<Vec<RemoteRow>, FetchError>) -> Result<Seq<RowModel>, FetchFault> {
    match r {
        Ok(rows) => Ok(rows_view(rows@)),
        Err(e) => Err(e@),
    }
}

/// The fixed text that precedes the JSON document in a prefixed envelope.
pub open spec fn security_prefix() -> Seq<char> {
    ")]}'\n"@
}

/// The JSON text inside an envelope: the whole body of a plain envelope,
/// the body after the security prefix of a prefixed one. `None` for an
/// empty body and for a body that lacks the prefix it must have.
pub open spec fn unwrapped_body(mode: EnvelopeMode, body: Seq<char>) -> Option<Seq<char>> {
    if body.len() == 0 {
        None
    } else {
        match mode {
            EnvelopeMode::Plain => Some(body),
            EnvelopeMode::SecurityPrefixed => if has_prefix(body, security_prefix()) {
                Some(body.subrange(security_prefix().len() as int, body.len() as int))
            } else {
                None
            },
        }
    }
}

/// The member of an object under a name; `None` for a value that is no
/// object or has no such member.
pub open spec fn member_of(tree: JsonTree, key: Seq<char>) -> Option<JsonTree> {
    match tree {
        JsonTree::Object(members) => if members.contains_key(key) {
            Some(members[key])
        } else {
            None
        },
        _ => None,
    }
}

/// The elements of an array; `None` for a value that is no array.
pub open spec fn items_of(tree: JsonTree) -> Option<Seq<JsonTree>> {
    match tree {
        JsonTree::Array(items) => Some(items),
        _ => None,
    }
}

/// The row entries of a document: the array at `table.rows`.
pub open spec fn table_rows(doc: JsonTree) -> Option<Seq<JsonTree>> {
    match member_of(doc, "table"@) {
        Some(table) => match member_of(table, "rows"@) {
            Some(rows) => items_of(rows),
            None => None,
        },
        None => None,
    }
}

/// The source value that a JSON value stands for. An object or an array is
/// kept as its compact JSON text.
pub open spec fn source_model(tree: JsonTree) -> SourceModel {
    match tree {
        JsonTree::Null => SourceModel::Null,
        JsonTree::Bool(b) => SourceModel::Bool(b),
        JsonTree::Number(t) => SourceModel::Number(t),
        JsonTree::Text(t) => SourceModel::Text(t),
        _ => SourceModel::Composite(json_rendering(tree)),
    }
}

/// The cell entries of a row entry: the array under `c`, or nothing where
/// the entry has no such array.
pub open spec fn row_cells(entry: JsonTree) -> Seq<JsonTree> {
    match member_of(entry, "c"@) {
        Some(c) => match items_of(c) {
            Some(cells) => cells,
            None => Seq::empty(),
        },
        None => Seq::empty(),
    }
}

/// The value of a cell entry: what stands under `v`, or `None` where the
/// entry has no such member.
pub open spec fn slot_model(cell: JsonTree) -> Option<SourceModel> {
    match member_of(cell, "v"@) {
        Some(v) => Some(source_model(v)),
        None => None,
    }
}

/// The row that a row entry stands for: one position per cell entry.
pub open spec fn row_model(entry: JsonTree) -> RowModel {
    row_cells(entry).map_values(|cell: JsonTree| slot_model(cell))
}

/// The rows that the row entries stand for: one row per entry, in the
/// order of the entries.
pub open spec fn rows_model(entries: Seq<JsonTree>) -> Seq<RowModel> {
    entries.map_values(|entry: JsonTree| row_model(entry))
}

/// The rows of a document, or `UnexpectedShape` where it has no array at
/// `table.rows`.
pub open spec fn document_rows(doc: JsonTree) -> Result<Seq<RowModel>, FetchFault> {
    match table_rows(doc) {
        Some(entries) => Ok(rows_model(entries)),
        None => Err(FetchFault::UnexpectedShape),
    }
}

/// The rows that a JSON text holds, or `Malformed` with the parser's words
/// where the text is not JSON.
pub open spec fn text_rows(text: Seq<char>) -> Result<Seq<RowModel>, FetchFault> {
    match json_document(text) {
        Ok(doc) => document_rows(doc),
        Err(words) => Err(FetchFault::Malformed(words)),
    }
}

/// What a fetch gives for a response.
pub open spec fn fetch_spec(mode: EnvelopeMode, response: ResponseModel) -> Result<Seq<RowModel>, FetchFault> {
    match response {
        ResponseModel::Failed(reason) => Err(FetchFault::Transport(reason)),
        ResponseModel::Body(body) => match unwrapped_body(mode, body) {
            None => Err(FetchFault::InvalidEnvelope),
            Some(text) => text_rows(text),
        },
    }
}

/// Unwraps the envelope of a response body.
pub fn unwrap_envelope<'a>(mode: EnvelopeMode, body: &'a str) -> (r: Option<&'a str>)
    ensures
        r is Some <==> unwrapped_body(mode, body@) is Some,
        r matches Some(text) ==> Some(text@) == unwrapped_body(mode, body@),
{
    let n: usize = body.unicode_len();
    if n == 0 {
        return None;
    }
    match mode {
        EnvelopeMode::Plain => Some(body),
        EnvelopeMode::SecurityPrefixed => {
            let prefix = ")]}'\n";
            if starts_with(body, prefix) {
                let k: usize = prefix.unicode_len();
                Some(body.substring_char(k, n))
            } else {
                None
            }
        },
    }
}

/// The source value that a JSON value stands for.
pub fn source_value_of(v: &serde_json::Value) -> (r: SourceValue)
    ensures
        r@ == source_model(json_tree(*v)),
{
    if value_is_null(v) {
        return SourceValue::Null;
    }
    if let Some(b) = value_bool(v) {
        return SourceValue::Bool(b);
    }
    if let Some(number) = value_number(v) {
        return SourceValue::Number(number);
    }
    if let Some(text) = value_text(v) {
        return SourceValue::Text(String::from_str(text));
    }
    SourceValue::Composite(value_rendering(v))
}

/// The row that a row entry stands for.
pub fn remote_row_of(entry: &serde_json::Value) -> (r: RemoteRow)
    ensures
        r@ == row_model(json_tree(*entry)),
{
    let mut values: Vec<Option<SourceValue>> = Vec::new();
    let cells = match value_member(entry, "c") {
        Some(c) => match value_items(c) {
            Some(cells) => cells,
            None => {
                let row = RemoteRow { values };
                assert(row@ =~= row_model(json_tree(*entry)));
                return row;
            },
        },
        None => {
            let row = RemoteRow { values };
            assert(row@ =~= row_model(json_tree(*entry)));
            return row;
        },
    };
    let mut i: usize = 0;
    while i < cells.len()
        invariant
            i <= cells@.len(),
            values@.len() == i,
            cells@.len() == row_cells(json_tree(*entry)).len(),
            forall|j: int| 0 <= j < cells@.len() ==> json_tree(#[trigger] cells@[j]) == row_cells(json_tree(*entry))[j],
            forall|j: int| 0 <= j < i ==> slot_view(#[trigger] values@[j]) == slot_model(json_tree(cells@[j])),
        decreases cells@.len() - i,
    {
        let slot = match value_member(&cells[i], "v") {
            Some(v) => Some(source_value_of(v)),
            None => None,
        };
        values.push(slot);
        i += 1;
    }
    let row = RemoteRow { values };
    assert(row@ =~= row_model(json_tree(*entry)));
    row
}

/// Finds the row array of a document and turns each entry into a row.
pub fn extract_rows(doc: &serde_json::Value) -> (r: Result<Vec<RemoteRow>, FetchError>)
    ensures
        fetch_view(r) == document_rows(json_tree(*doc)),
        r is Ok <==> table_rows(json_tree(*doc)) is Some,
        r matches Ok(rows) ==> rows@.len() == table_rows(json_tree(*doc))->0.len(),
{
    let table = match value_member(doc, "table") {
        Some(table) => table,
        None => {
            return Err(FetchError::UnexpectedShape);
        },
    };
    let listed = match value_member(table, "rows") {
        Some(listed) => listed,
        None => {
            return Err(FetchError::UnexpectedShape);
        },
    };
    let entries = match value_items(listed) {
        Some(entries) => entries,
        None => {
            return Err(FetchError::UnexpectedShape);
        },
    };
    let ghost trees = table_rows(json_tree(*doc))->0;
    let mut rows: Vec<RemoteRow> = Vec::new();
    let mut i: usize = 0;
    while i < entries.len()
        invariant
            i <= entries@.len(),
            rows@.len() == i,
            table_rows(json_tree(*doc)) == Some(trees),
            entries@.len() == trees.len(),
            forall|j: int| 0 <= j < entries@.len() ==> json_tree(#[trigger] entries@[j]) == trees[j],
            forall|j: int| 0 <= j < i ==> (#[trigger] rows@[j])@ == row_model(trees[j]),
        decreases entries@.len() - i,
    {
        let row = remote_row_of(&entries[i]);
        rows.push(row);
        i += 1;
    }
    assert(rows_view(rows@) =~= rows_model(trees));
    Ok(rows)
}

/// Reads a JSON text and extracts its rows.
pub fn parse_json_to_rows(json_data: &str) -> (r: Result<Vec<RemoteRow>, FetchError>)
    ensures
        fetch_view(r) == text_rows(json_data@),
{
    match parse_document(json_data) {
        Ok(doc) => extract_rows(&doc),
        Err(e) => Err(FetchError::Malformed(error_text(&e))),
    }
}

/// Turns the response to the request of a scan into rows: one row per entry
/// of the row array, in the order of the source.
pub fn fetch(mode: EnvelopeMode, response: &Response) -> (r: Result<Vec<RemoteRow>, FetchError>)
    ensures
        fetch_view(r) == fetch_spec(mode, response@),
{
    match response {
        Response::Failed(reason) => Err(FetchError::Transport(reason.clone())),
        Response::Body(body) => match unwrap_envelope(mode, body.as_str()) {
            None => Err(FetchError::InvalidEnvelope),
            Some(text) => parse_json_to_rows(text),
        },
    }
}

/// A fetch gives as many rows as the row array of the response has
/// entries, and the row at each place is the row of the entry at that
/// place.
pub proof fn law_fetch_keeps_rows(mode: EnvelopeMode, body: Seq<char>, text: Seq<char>, doc: JsonTree, entries: Seq<JsonTree>)
    requires
        unwrapped_body(mode, body) == Some(text),
        json_document(text) == Ok::<JsonTree, Seq<char>>(doc),
        table_rows(doc) == Some(entries),
    ensures
        fetch_spec(mode, ResponseModel::Body(body)) matches Ok(rows) && rows.len() == entries.len() && (forall|i: int|
            0 <= i < entries.len() ==> #[trigger] rows[i] == row_model(entries[i])),
{
}

} // verus!
