//! Rows of the source table, output columns, and the projection of a row
//! onto the columns a scan asks for.

use vstd::prelude::*;
use crate::cell::{coerce, coerce_spec, same_outcome, Cell, CellModel, CoercionMode, DeclaredType, ProjectionError, ProjectionFault, SourceModel, SourceValue};

verus! {

/// One row of the source table: a value for each source column that has
/// one, `None` where the source holds no value at that position.
#[derive(Clone, Debug, PartialEq, Eq)]
pub struct RemoteRow {
    pub values: Vec<Option<SourceValue>>,
}

/// The mathematical content of a row.
pub type RowModel = Seq<Option<SourceModel>>;

/// The content of one position of a row.
pub open spec fn slot_view(slot: Option<SourceValue>) -> Option<SourceModel> {
    match slot {
        Some(v) => Some(v@),
        None => None,
    }
}

impl View for RemoteRow {
    type V = RowModel;

    open spec fn view(&self) -> RowModel {
        self.values@.map_values(|slot: Option<SourceValue>| slot_view(slot))
    }
}

/// The content of a sequence of rows, row by row.
pub open spec fn rows_view(rows: Seq<RemoteRow>) -> Seq<RowModel> {
    rows.map_values(|row: RemoteRow| row@)
}

/// A column the host asks for.
#[derive(Clone, Debug, PartialEq, Eq)]
pub struct OutputColumn {
    pub name: String,
    pub declared_type: DeclaredType,
    /// The 0-based position of the column in the source row.
    pub positional_index: usize,
}

/// The mathematical content of an [`OutputColumn`].
pub struct ColumnModel {
    pub name: Seq<char>,
    pub declared_type: DeclaredType,
    pub positional_index: nat,
}

impl View for OutputColumn {
    type V = ColumnModel;

    open spec fn view(&self) -> ColumnModel {
        ColumnModel {
            name: self.name@,
            declared_type: self.declared_type,
            positional_index: self.positional_index as nat,
        }
    }
}

/// The content of a column list, column by column.
pub open spec fn columns_view(columns: Seq<OutputColumn>) -> Seq<ColumnModel> {
    columns.map_values(|c: OutputColumn| c@)
}

/// The content of a list of cells, cell by cell.
pub open spec fn cells_view(cells: Seq<Cell>) -> Seq<CellModel> {
    cells.map_values(|c: Cell| c@)
}

/// Where in the source row the value of an output column is found.
#[derive(Clone, Copy, Debug, PartialEq, Eq)]
pub enum IndexStrategy {
    /// At the column's own `positional_index`.
    PositionalIndex,
    /// At the column's place in the requested column list.
    SequencePosition,
}

/// How a scan projects rows.
#[derive(Clone, Copy, Debug, PartialEq, Eq)]
pub struct ProjectionSettings {
    pub indexing: IndexStrategy,
    pub coercion: CoercionMode,
}

/// The source position of the `i`-th requested column.
pub open spec fn source_position(indexing: IndexStrategy, column: ColumnModel, i: int) -> int {
    match indexing {
        IndexStrategy::PositionalIndex => column.positional_index as int,
        IndexStrategy::SequencePosition => i,
    }
}

/// The cell of the `i`-th requested column: the coercion of the value at
/// the column's source position, or `ColumnNotFound` where the row holds
/// none there.
pub open spec fn project_cell(row: RowModel, columns: Seq<ColumnModel>, i: int, settings: ProjectionSettings) -> Result<
    CellModel,
    ProjectionFault,
> {
    let at = source_position(settings.indexing, columns[i], i);
    if 0 <= at < row.len() && row[at] is Some {
        coerce_spec(row[at]->0, columns[i].declared_type, columns[i].name, settings.coercion)
    } else {
        Err(ProjectionFault::ColumnNotFound(columns[i].name))
    }
}

/// The cells of the first `n` requested columns, in order, or the error of
/// the first column that fails.
pub open spec fn project_prefix(row: RowModel, columns: Seq<ColumnModel>, n: nat, settings: ProjectionSettings) -> Result<
    Seq<CellModel>,
    ProjectionFault,
>
    decreases n,
{
    if n == 0 {
        Ok(Seq::empty())
    } else {
        match project_prefix(row, columns, (n - 1) as nat, settings) {
            Err(e) => Err(e),
            Ok(cells) => match project_cell(row, columns, n - 1, settings) {
                Err(e) => Err(e),
                Ok(c) => Ok(cells.push(c)),
            },
        }
    }
}

/// The projection of a row onto a column list.
pub open spec fn project_row_spec(row: RowModel, columns: Seq<ColumnModel>, settings: ProjectionSettings) -> Result<
    Seq<CellModel>,
    ProjectionFault,
> {
    project_prefix(row, columns, columns.len(), settings)
}

/// The content of the outcome of a projection.
pub open spec fn projection_view(r: Result<Vec<Cell>, ProjectionError>) -> Result<Seq<CellModel>, ProjectionFault> {
    match r {
        Ok(cells) => Ok(cells_view(cells@)),
        Err(e) => Err(e@),
    }
}

/// Whether every cell of a list meets its invariant.
pub open spec fn cells_well_formed(cells: Seq<Cell>) -> bool {
    forall|i: int| 0 <= i < cells.len() ==> (#[trigger] cells[i]).well_formed()
}

/// A projected prefix has one cell per column, each the cell of its column;
/// and a prefix projects exactly when each of its columns does.
pub proof fn lemma_project_prefix(row: RowModel, columns: Seq<ColumnModel>, n: nat, settings: ProjectionSettings)
    ensures
        project_prefix(row, columns, n, settings) is Ok <==> (forall|i: int|
            0 <= i < n ==> (#[trigger] project_cell(row, columns, i, settings)) is Ok),
        project_prefix(row, columns, n, settings) matches Ok(cells) ==> cells.len() == n && (forall|i: int|
            0 <= i < n ==> Ok::<CellModel, ProjectionFault>(cells[i]) == #[trigger] project_cell(
                row,
                columns,
                i,
                settings,
            )),
    decreases n,
{
    if n > 0 {
        lemma_project_prefix(row, columns, (n - 1) as nat, settings);
    }
}

/// The cells of a projected row have the length and the order of the
/// requested column list: there is one cell per column, and the cell at
/// each place is the one that the column at that place gives. A row
/// projects exactly when every requested column does.
pub proof fn law_cells_follow_columns(row: RowModel, columns: Seq<ColumnModel>, settings: ProjectionSettings)
    ensures
        project_row_spec(row, columns, settings) is Ok <==> (forall|i: int|
            0 <= i < columns.len() ==> (#[trigger] project_cell(row, columns, i, settings)) is Ok),
        project_row_spec(row, columns, settings) matches Ok(cells) ==> cells.len() == columns.len() && (forall|i: int|
            0 <= i < columns.len() ==> Ok::<CellModel, ProjectionFault>(cells[i]) == #[trigger] project_cell(
                row,
                columns,
                i,
                settings,
            )),
{
    lemma_project_prefix(row, columns, columns.len(), settings);
}

/// The cell of a column depends on the source value and the declared type
/// alone: two projections, of any rows, column lists and places, that meet
/// equal source values under equal declared types in the same coercion mode
/// give the same cell or the same kind of error, and with equal column
/// names the same outcome.
pub proof fn law_cell_depends_on_value_and_type(
    first_row: RowModel,
    first_columns: Seq<ColumnModel>,
    i: int,
    first_settings: ProjectionSettings,
    second_row: RowModel,
    second_columns: Seq<ColumnModel>,
    j: int,
    second_settings: ProjectionSettings,
)
    requires
        0 <= i < first_columns.len(),
        0 <= j < second_columns.len(),
        0 <= source_position(first_settings.indexing, first_columns[i], i) < first_row.len(),
        0 <= source_position(second_settings.indexing, second_columns[j], j) < second_row.len(),
        first_row[source_position(first_settings.indexing, first_columns[i], i)] is Some,
        first_row[source_position(first_settings.indexing, first_columns[i], i)] == second_row[source_position(
            second_settings.indexing,
            second_columns[j],
            j,
        )],
        first_columns[i].declared_type == second_columns[j].declared_type,
        first_settings.coercion == second_settings.coercion,
    ensures
        same_outcome(
            project_cell(first_row, first_columns, i, first_settings),
            project_cell(second_row, second_columns, j, second_settings),
        ),
        first_columns[i].name == second_columns[j].name ==> project_cell(first_row, first_columns, i, first_settings)
            == project_cell(second_row, second_columns, j, second_settings),
{
}

/// Projects one requested column of a row.
pub fn project_column(row: &RemoteRow, columns: &Vec<OutputColumn>, i: usize, settings: &ProjectionSettings) -> (r:
    Result<Cell, ProjectionError>)
    requires
        i < columns@.len(),
    ensures
        crate::cell::outcome_view(r) == project_cell(row@, columns_view(columns@), i as int, *settings),
        r matches Ok(c) ==> c.well_formed(),
{
    let column = &columns[i];
    let at: usize = match settings.indexing {
        IndexStrategy::PositionalIndex => column.positional_index,
        IndexStrategy::SequencePosition => i,
    };
    if at < row.values.len() {
        match &row.values[at] {
            Some(value) => coerce(value, column.declared_type, column.name.as_str(), settings.coercion),
            None => Err(ProjectionError::ColumnNotFound(column.name.clone())),
        }
    } else {
        Err(ProjectionError::ColumnNotFound(column.name.clone()))
    }
}

/// Projects a row onto the requested columns, in their order. The first
/// column that fails ends the projection with its error.
pub fn project_row(row: &RemoteRow, columns: &Vec<OutputColumn>, settings: &ProjectionSettings) -> (r: Result<
    Vec<Cell>,
    ProjectionError,
>)
    ensures
        projection_view(r) == project_row_spec(row@, columns_view(columns@), *settings),
        r matches Ok(cells) ==> cells@.len() == columns@.len() && cells_well_formed(cells@),
{
    let mut cells: Vec<Cell> = Vec::new();
    let mut i: usize = 0;
    assert(cells_view(cells@) =~= Seq::empty());
    while i < columns.len()
        invariant
            i <= columns@.len(),
            cells@.len() == i,
            cells_well_formed(cells@),
            project_prefix(row@, columns_view(columns@), i as nat, *settings) == Ok::<
                Seq<CellModel>,
                ProjectionFault,
            >(cells_view(cells@)),
        decreases columns@.len() - i,
    {
        match project_column(row, columns, i, settings) {
            Err(e) => {
                proof {
                    lemma_error_persists(row@, columns_view(columns@), i as nat + 1, columns@.len(), *settings);
                }
                return Err(e);
            },
            Ok(cell) => {
                let ghost before = cells_view(cells@);
                cells.push(cell);
                assert(cells_view(cells@) =~= before.push(cell@));
                i += 1;
            },
        }
    }
    Ok(cells)
}

/// Once a prefix fails, every longer prefix fails with the same error.
pub proof fn lemma_error_persists(row: RowModel, columns: Seq<ColumnModel>, n: nat, m: nat, settings: ProjectionSettings)
    requires
        n <= m,
        project_prefix(row, columns, n, settings) is Err,
    ensures
        project_prefix(row, columns, m, settings) == project_prefix(row, columns, n, settings),
    decreases m,
{
    if n < m {
        lemma_error_persists(row, columns, n, (m - 1) as nat, settings);
    }
}

} // verus!
