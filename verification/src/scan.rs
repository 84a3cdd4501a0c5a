//! The scan: a cursor over the fetched rows, and the lifecycle that the
//! host drives, from `init` through `begin_scan` and `iter_scan` to
//! `end_scan`.

use vstd::prelude::*;
use vstd::string::*;
use crate::cell::{Cell, CellModel, ProjectionError, ProjectionFault};
use crate::config::{copy_options, lookup, optional_text, options_view, request_url, resolve_config, resolve_request, resolved_base_url, resolved_object, url_of, AdapterConfig, ConfigError, ConfigOption, TableRequest};
use crate::fetch::{fetch, fetch_spec, headers_of, headers_view, request_headers, EnvelopeMode, FetchError, Header, Response};
use crate::row::{cells_view, cells_well_formed, columns_view, project_row, project_row_spec, rows_view, ColumnModel, OutputColumn, ProjectionSettings, RemoteRow, RowModel};

verus! {

/// Where a scan stands in its life.
#[derive(Clone, Copy, Debug, PartialEq, Eq)]
pub enum ScanPhase {
    /// No fetch has been made.
    Idle,
    /// Rows are held; pulls hand them out.
    Active,
    /// A pull found no row left.
    Exhausted,
    /// The scan was ended and its rows dropped.
    Closed,
}

/// The rows of a scan and the place of the next row to hand out.
#[derive(Debug)]
pub struct ScanCursor {
    rows: Vec<RemoteRow>,
    position: usize,
    phase: ScanPhase,
}

/// The mathematical content of a [`ScanCursor`].
pub struct CursorModel {
    pub rows: Seq<RowModel>,
    pub position: nat,
    pub phase: ScanPhase,
}

impl CursorModel {
    /// The invariant of a cursor: the position lies within the rows; a
    /// cursor that is idle or closed holds no rows; an exhausted one stands
    /// at the end.
    pub open spec fn well_formed(self) -> bool {
        &&& self.position <= self.rows.len()
        &&& (self.phase is Idle || self.phase is Closed ==> self.rows.len() == 0)
        &&& (self.phase is Exhausted ==> self.position == self.rows.len())
    }

    /// Whether no row is left to hand out.
    pub open spec fn exhausted(self) -> bool {
        self.position == self.rows.len()
    }

    /// The cursor before any fetch.
    pub open spec fn idle() -> CursorModel {
        CursorModel { rows: Seq::empty(), position: 0, phase: ScanPhase::Idle }
    }

    /// The cursor of an ended scan.
    pub open spec fn closed() -> CursorModel {
        CursorModel { rows: Seq::empty(), position: 0, phase: ScanPhase::Closed }
    }

    /// The cursor right after a fetch of `rows`.
    pub open spec fn opened(rows: Seq<RowModel>) -> CursorModel {
        CursorModel { rows, position: 0, phase: ScanPhase::Active }
    }
}

/// What a pull returns: `None` at the end of the rows, else the projection
/// of the row at the cursor's position.
pub open spec fn pull_result(c: CursorModel, columns: Seq<ColumnModel>, settings: ProjectionSettings) -> Result<
    Option<Seq<CellModel>>,
    ProjectionFault,
> {
    if c.position >= c.rows.len() {
        Ok(None)
    } else {
        match project_row_spec(c.rows[c.position as int], columns, settings) {
            Ok(cells) => Ok(Some(cells)),
            Err(e) => Err(e),
        }
    }
}

/// The cursor after a pull. A row handed out moves the position on by one.
/// At the end of the rows an active cursor becomes exhausted and nothing
/// else changes. A row that fails to project leaves the cursor as it was:
/// the position moves only after every column has succeeded, and the rows
/// are dropped only when the scan is ended.
pub open spec fn pull_next(c: CursorModel, columns: Seq<ColumnModel>, settings: ProjectionSettings) -> CursorModel {
    if c.position >= c.rows.len() {
        CursorModel {
            phase: if c.phase is Active {
                ScanPhase::Exhausted
            } else {
                c.phase
            },
            ..c
        }
    } else {
        match project_row_spec(c.rows[c.position as int], columns, settings) {
            Ok(_) => CursorModel { position: c.position + 1, ..c },
            Err(_) => c,
        }
    }
}

/// The cursor after `k` pulls in a row with the same columns.
pub open spec fn after_pulls(c: CursorModel, columns: Seq<ColumnModel>, settings: ProjectionSettings, k: nat) -> CursorModel
    decreases k,
{
    if k == 0 {
        c
    } else {
        pull_next(after_pulls(c, columns, settings, (k - 1) as nat), columns, settings)
    }
}

/// The content of the outcome of a pull.
pub open spec fn pull_view(r: Result<Option<Vec<Cell>>, ProjectionError>) -> Result<Option<Seq<CellModel>>, ProjectionFault> {
    match r {
        Ok(Some(cells)) => Ok(Some(cells_view(cells@))),
        Ok(None) => Ok(None),
        Err(e) => Err(e@),
    }
}

/// An operation that the adapter never performs.
#[derive(Clone, Copy, Debug, PartialEq, Eq)]
pub enum UnsupportedOperation {
    ReScan,
    Insert,
    Update,
    Delete,
}

/// The text that reports a refused operation.
pub open spec fn refusal_message(operation: UnsupportedOperation) -> Seq<char> {
    match operation {
        UnsupportedOperation::ReScan => "re_scan is not supported"@,
        UnsupportedOperation::Insert => "insert is not supported"@,
        UnsupportedOperation::Update => "update is not supported"@,
        UnsupportedOperation::Delete => "delete is not supported"@,
    }
}

impl UnsupportedOperation {
    /// The text that reports this refusal to a reader.
    pub fn message(&self) -> (r: String)
        ensures
            r@ == refusal_message(*self),
    {
        match self {
            UnsupportedOperation::ReScan => String::from_str("re_scan is not supported"),
            UnsupportedOperation::Insert => String::from_str("insert is not supported"),
            UnsupportedOperation::Update => String::from_str("update is not supported"),
            UnsupportedOperation::Delete => String::from_str("delete is not supported"),
        }
    }
}

/// A change to the source table that a host may ask for.
#[derive(Clone, Copy, Debug, PartialEq, Eq)]
pub enum WriteOperation {
    Insert,
    Update,
    Delete,
}

impl View for ScanCursor {
    type V = CursorModel;

    closed spec fn view(&self) -> CursorModel {
        CursorModel { rows: rows_view(self.rows@), position: self.position as nat, phase: self.phase }
    }
}

impl ScanCursor {
    /// The invariant of the type: the content of every cursor is well
    /// formed.
    #[verifier::type_invariant]
    spec fn cursor_in_bounds(&self) -> bool {
        self@.well_formed()
    }

    /// A cursor before any fetch.
    pub fn new() -> (r: ScanCursor)
        ensures
            r@ == CursorModel::idle(),
            r@.well_formed(),
    {
        let r = ScanCursor { rows: Vec::new(), position: 0, phase: ScanPhase::Idle };
        assert(rows_view(r.rows@) =~= Seq::empty());
        r
    }

    /// Takes the rows of a successful fetch: the cursor becomes active at
    /// position zero, whatever it held before.
    pub fn open(&mut self, rows: Vec<RemoteRow>)
        ensures
            final(self)@ == CursorModel::opened(rows_view(rows@)),
            final(self)@.well_formed(),
    {
        *self = ScanCursor { rows, position: 0, phase: ScanPhase::Active };
    }

    /// Hands out the next row, projected onto `columns`, and moves on; or
    /// `None` when no row is left. A row that fails to project is not
    /// handed out in part, and the cursor stays where it was.
    pub fn pull(&mut self, columns: &Vec<OutputColumn>, settings: &ProjectionSettings) -> (r: Result<
        Option<Vec<Cell>>,
        ProjectionError,
    >)
        ensures
            pull_view(r) == pull_result(old(self)@, columns_view(columns@), *settings),
            final(self)@ == pull_next(old(self)@, columns_view(columns@), *settings),
            final(self)@.well_formed(),
            final(self)@.rows == old(self)@.rows,
            r is Err ==> final(self)@ == old(self)@,
            r matches Ok(None) <==> old(self)@.exhausted(),
            r matches Ok(Some(cells)) ==> cells@.len() == columns@.len() && cells_well_formed(cells@)
                && final(self)@.position == old(self)@.position + 1,
    {
        proof {
            use_type_invariant(&*self);
        }
        if self.position >= self.rows.len() {
            match self.phase {
                ScanPhase::Active => {
                    self.phase = ScanPhase::Exhausted;
                },
                _ => {},
            }
            return Ok(None);
        }
        match project_row(&self.rows[self.position], columns, settings) {
            Ok(cells) => {
                self.position = self.position + 1;
                Ok(Some(cells))
            },
            Err(e) => Err(e),
        }
    }

    /// Ends the scan: the rows are dropped and the position returns to
    /// zero.
    pub fn close(&mut self)
        ensures
            final(self)@ == CursorModel::closed(),
            final(self)@.well_formed(),
    {
        *self = ScanCursor { rows: Vec::new(), position: 0, phase: ScanPhase::Closed };
        assert(rows_view(self.rows@) =~= Seq::empty());
    }

    /// Refuses to rewind: a scan cannot be started over without a new
    /// fetch, in any phase.
    pub fn rescan(&self) -> (r: Result<(), UnsupportedOperation>)
        ensures
            r == Err::<(), UnsupportedOperation>(UnsupportedOperation::ReScan),
    {
        Err(UnsupportedOperation::ReScan)
    }

    /// The place of the next row to hand out.
    pub fn position(&self) -> (r: usize)
        ensures
            r as nat == self@.position,
    {
        self.position
    }

    /// The number of rows held.
    pub fn row_count(&self) -> (r: usize)
        ensures
            r as nat == self@.rows.len(),
    {
        assert(rows_view(self.rows@).len() == self.rows@.len());
        self.rows.len()
    }

    /// The phase of the scan.
    pub fn phase(&self) -> (r: ScanPhase)
        ensures
            r == self@.phase,
    {
        self.phase
    }

    /// Whether no row is left to hand out.
    pub fn is_exhausted(&self) -> (r: bool)
        ensures
            r == self@.exhausted(),
    {
        proof {
            use_type_invariant(self);
        }
        assert(rows_view(self.rows@).len() == self.rows@.len());
        self.position >= self.rows.len()
    }
}

/// How an adapter reads and projects.
#[derive(Clone, Copy, Debug, PartialEq, Eq)]
pub struct ScanSettings {
    pub envelope: EnvelopeMode,
    pub projection: ProjectionSettings,
}

/// The state of one adapter: the options it was set up with, its
/// configuration, the table it reads, and the cursor of its scan. The
/// caller holds it and hands it to each call.
#[derive(Debug)]
pub struct ScanState {
    pub options: Vec<ConfigOption>,
    pub config: AdapterConfig,
    pub request: TableRequest,
    pub settings: ScanSettings,
    pub cursor: ScanCursor,
}

/// Sets an adapter up from the host's options. The table identifier is
/// required; without it no state is made.
pub fn init(options: &Vec<ConfigOption>, settings: ScanSettings) -> (r: Result<ScanState, ConfigError>)
    ensures
        r is Ok <==> resolved_object(options_view(options@)) is Some,
        r is Err ==> r matches Err(ConfigError::MissingTableIdentifier),
        r matches Ok(state) ==> {
            &&& options_view(state.options@) == options_view(options@)
            &&& state.config.base_url@ == resolved_base_url(options_view(options@))
            &&& Some(state.request.object_identifier@) == resolved_object(options_view(options@))
            &&& optional_text(state.request.sheet_identifier) == lookup(options_view(options@), "gid"@)
            &&& state.settings == settings
            &&& state.cursor@ == CursorModel::idle()
            &&& state.cursor@.well_formed()
        },
{
    match resolve_request(options) {
        Err(e) => Err(e),
        Ok(request) => Ok(
            ScanState {
                options: copy_options(options),
                config: resolve_config(options),
                request,
                settings,
                cursor: ScanCursor::new(),
            },
        ),
    }
}

/// The one request that a scan makes: a GET of `url` with `headers`, tried
/// once.
#[derive(Clone, Debug, PartialEq, Eq)]
pub struct ScanRequest {
    pub url: String,
    pub headers: Vec<Header>,
}

/// Says which request the next scan of this adapter makes. The caller
/// performs it and hands the response to [`begin_scan`].
pub fn plan_request(state: &ScanState) -> (r: ScanRequest)
    ensures
        r.url@ == url_of(
            state.config.base_url@,
            state.request.object_identifier@,
            optional_text(state.request.sheet_identifier),
        ),
        headers_view(r.headers@) == headers_of(state.settings.envelope),
{
    ScanRequest { url: request_url(&state.config, &state.request), headers: request_headers(state.settings.envelope) }
}

/// Starts a scan from the response to its request. A response that gives
/// rows makes the cursor active at position zero; any other leaves the
/// state as it was and returns the error.
pub fn begin_scan(state: &mut ScanState, response: &Response) -> (r: Result<(), FetchError>)
    ensures
        final(state).cursor@.well_formed(),
        final(state).options == old(state).options,
        final(state).config == old(state).config,
        final(state).request == old(state).request,
        final(state).settings == old(state).settings,
        match fetch_spec(old(state).settings.envelope, response@) {
            Ok(rows) => r is Ok && final(state).cursor@ == CursorModel::opened(rows),
            Err(fault) => r matches Err(e) && e@ == fault && final(state).cursor@ == old(state).cursor@,
        },
{
    proof {
        use_type_invariant(&state.cursor);
    }
    match fetch(state.settings.envelope, response) {
        Ok(rows) => {
            state.cursor.open(rows);
            Ok(())
        },
        Err(e) => Err(e),
    }
}

/// Hands out the next row of the scan, projected onto `columns`, or `None`
/// when no row is left. A row that fails to project gives its error and no
/// cells, and leaves the cursor where it was; the caller ends the scan.
pub fn iter_scan(state: &mut ScanState, columns: &Vec<OutputColumn>) -> (r: Result<Option<Vec<Cell>>, ProjectionError>)
    ensures
        final(state).cursor@.well_formed(),
        final(state).options == old(state).options,
        final(state).config == old(state).config,
        final(state).request == old(state).request,
        final(state).settings == old(state).settings,
        pull_view(r) == pull_result(old(state).cursor@, columns_view(columns@), old(state).settings.projection),
        final(state).cursor@ == pull_next(old(state).cursor@, columns_view(columns@), old(state).settings.projection),
        final(state).cursor@.rows == old(state).cursor@.rows,
        r is Err ==> final(state).cursor@ == old(state).cursor@,
        r matches Ok(None) <==> old(state).cursor@.exhausted(),
        r matches Ok(Some(cells)) ==> cells@.len() == columns@.len() && cells_well_formed(cells@)
            && final(state).cursor@.position == old(state).cursor@.position + 1,
{
    let projection = state.settings.projection;
    state.cursor.pull(columns, &projection)
}

/// Ends the scan: the rows are dropped, and the adapter is ready for the
/// next `begin_scan`.
pub fn end_scan(state: &mut ScanState)
    ensures
        final(state).cursor@ == CursorModel::closed(),
        final(state).cursor@.well_formed(),
        final(state).options == old(state).options,
        final(state).config == old(state).config,
        final(state).request == old(state).request,
        final(state).settings == old(state).settings,
{
    state.cursor.close();
}

/// Refuses to start the scan over. The state is not touched.
pub fn re_scan(state: &ScanState) -> (r: Result<(), UnsupportedOperation>)
    ensures
        r == Err::<(), UnsupportedOperation>(UnsupportedOperation::ReScan),
{
    state.cursor.rescan()
}

/// Which refusal answers a write.
pub open spec fn refusal_of(operation: WriteOperation) -> UnsupportedOperation {
    match operation {
        WriteOperation::Insert => UnsupportedOperation::Insert,
        WriteOperation::Update => UnsupportedOperation::Update,
        WriteOperation::Delete => UnsupportedOperation::Delete,
    }
}

/// Refuses a write: the source is read-only. The state is not touched.
pub fn modify(state: &ScanState, operation: WriteOperation) -> (r: Result<(), UnsupportedOperation>)
    ensures
        r == Err::<(), UnsupportedOperation>(refusal_of(operation)),
{
    match operation {
        WriteOperation::Insert => Err(UnsupportedOperation::Insert),
        WriteOperation::Update => Err(UnsupportedOperation::Update),
        WriteOperation::Delete => Err(UnsupportedOperation::Delete),
    }
}

/// Where a run of pulls stands when every row projects: after `k` pulls the
/// cursor has moved on by `k` rows, or stands at the end.
pub proof fn lemma_after_pulls(rows: Seq<RowModel>, columns: Seq<ColumnModel>, settings: ProjectionSettings, k: nat)
    requires
        forall|i: int| 0 <= i < rows.len() ==> (#[trigger] project_row_spec(rows[i], columns, settings)) is Ok,
    ensures
        after_pulls(CursorModel::opened(rows), columns, settings, k) == (CursorModel {
            rows,
            position: if k <= rows.len() {
                k
            } else {
                rows.len()
            },
            phase: if k <= rows.len() {
                ScanPhase::Active
            } else {
                ScanPhase::Exhausted
            },
        }),
    decreases k,
{
    if k > 0 {
        lemma_after_pulls(rows, columns, settings, (k - 1) as nat);
    }
}

/// After a fetch of `n` rows that all project, the first `n` pulls each
/// hand out a row, in the order of the rows, and every pull after them
/// returns `None`.
pub proof fn law_pulls_count_rows(rows: Seq<RowModel>, columns: Seq<ColumnModel>, settings: ProjectionSettings, k: nat)
    requires
        forall|i: int| 0 <= i < rows.len() ==> (#[trigger] project_row_spec(rows[i], columns, settings)) is Ok,
    ensures
        k < rows.len() ==> pull_result(after_pulls(CursorModel::opened(rows), columns, settings, k), columns, settings)
            == Ok::<Option<Seq<CellModel>>, ProjectionFault>(
            Some(project_row_spec(rows[k as int], columns, settings)->Ok_0),
        ),
        k >= rows.len() ==> pull_result(after_pulls(CursorModel::opened(rows), columns, settings, k), columns, settings)
            == Ok::<Option<Seq<CellModel>>, ProjectionFault>(None),
{
    lemma_after_pulls(rows, columns, settings, k);
}

/// Exhaustion is idempotent: a pull on a cursor with no row left returns
/// `None` and leaves rows and position as they were, so the next pull finds
/// the same.
pub proof fn law_exhaustion_is_idempotent(c: CursorModel, columns: Seq<ColumnModel>, settings: ProjectionSettings)
    requires
        c.well_formed(),
        c.exhausted(),
    ensures
        pull_result(c, columns, settings) == Ok::<Option<Seq<CellModel>>, ProjectionFault>(None),
        pull_next(c, columns, settings).rows == c.rows,
        pull_next(c, columns, settings).position == c.position,
        pull_next(c, columns, settings).exhausted(),
        pull_next(c, columns, settings).well_formed(),
        pull_next(pull_next(c, columns, settings), columns, settings) == pull_next(c, columns, settings),
{
}

/// What a pull returns depends on the row at the cursor and on nothing
/// else of the scan: two cursors, at any positions of any scans, that stand
/// at equal rows return the same for the same columns and settings.
pub proof fn law_pull_depends_on_current_row(
    first: CursorModel,
    second: CursorModel,
    columns: Seq<ColumnModel>,
    settings: ProjectionSettings,
)
    requires
        first.position < first.rows.len(),
        second.position < second.rows.len(),
        first.rows[first.position as int] == second.rows[second.position as int],
    ensures
        pull_result(first, columns, settings) == pull_result(second, columns, settings),
{
}

/// A failed pull changes nothing: the cursor after it is the cursor before
/// it, so the same pull fails again in the same way.
pub proof fn law_failed_pull_keeps_cursor(c: CursorModel, columns: Seq<ColumnModel>, settings: ProjectionSettings)
    requires
        pull_result(c, columns, settings) is Err,
    ensures
        pull_next(c, columns, settings) == c,
{
}

/// A pull keeps the invariant of the cursor.
pub proof fn law_pull_keeps_invariant(c: CursorModel, columns: Seq<ColumnModel>, settings: ProjectionSettings)
    requires
        c.well_formed(),
    ensures
        pull_next(c, columns, settings).well_formed(),
{
}

} // verus!
