use sheet_scan::cell::{Cell, CoercionMode, DeclaredType, ProjectionError, SourceValue};
use sheet_scan::row::{project_column, project_row, IndexStrategy, OutputColumn, ProjectionSettings, RemoteRow};

fn column(name: &str, declared_type: DeclaredType, positional_index: usize) -> OutputColumn {
    OutputColumn { name: name.to_string(), declared_type, positional_index }
}

fn text_row(values: &[&str]) -> RemoteRow {
    RemoteRow { values: values.iter().map(|v| Some(SourceValue::Text(v.to_string()))).collect() }
}

const TYPED_BY_INDEX: ProjectionSettings =
    ProjectionSettings { indexing: IndexStrategy::PositionalIndex, coercion: CoercionMode::Typed };
const TYPED_BY_SEQUENCE: ProjectionSettings =
    ProjectionSettings { indexing: IndexStrategy::SequencePosition, coercion: CoercionMode::Typed };
const UNTYPED_BY_INDEX: ProjectionSettings =
    ProjectionSettings { indexing: IndexStrategy::PositionalIndex, coercion: CoercionMode::Untyped };

#[test]
fn price_and_bedrooms_row_projects_to_integers() {
    let row = text_row(&["120000", "3"]);
    let columns = vec![column("price", DeclaredType::I64, 0), column("bedrooms", DeclaredType::I64, 1)];
    assert_eq!(project_row(&row, &columns, &TYPED_BY_INDEX), Ok(vec![Cell::I64(120000), Cell::I64(3)]));
}

#[test]
fn cells_follow_the_requested_columns() {
    let row = text_row(&["a", "b", "c", "d"]);
    let columns = vec![
        column("fourth", DeclaredType::String, 3),
        column("first", DeclaredType::String, 0),
        column("third", DeclaredType::String, 2),
    ];
    let cells = project_row(&row, &columns, &TYPED_BY_INDEX).unwrap();
    assert_eq!(cells.len(), columns.len());
    assert_eq!(cells, vec![Cell::String("d".into()), Cell::String("a".into()), Cell::String("c".into())]);
    for i in 0..columns.len() {
        assert_eq!(project_column(&row, &columns, i, &TYPED_BY_INDEX).unwrap(), cells[i]);
    }
}

#[test]
fn sequence_position_ignores_the_positional_index() {
    let row = text_row(&["a", "b", "c", "d"]);
    let columns = vec![column("x", DeclaredType::String, 3), column("y", DeclaredType::String, 0)];
    assert_eq!(
        project_row(&row, &columns, &TYPED_BY_SEQUENCE),
        Ok(vec![Cell::String("a".into()), Cell::String("b".into())])
    );
    assert_eq!(
        project_row(&row, &columns, &TYPED_BY_INDEX),
        Ok(vec![Cell::String("d".into()), Cell::String("a".into())])
    );
}

#[test]
fn no_columns_project_to_no_cells() {
    let row = text_row(&["a"]);
    assert_eq!(project_row(&row, &Vec::new(), &TYPED_BY_INDEX), Ok(Vec::new()));
}

#[test]
fn column_beyond_the_row_is_not_found() {
    let row = text_row(&["a"]);
    let columns = vec![column("first", DeclaredType::String, 0), column("second", DeclaredType::String, 1)];
    assert_eq!(
        project_row(&row, &columns, &TYPED_BY_INDEX),
        Err(ProjectionError::ColumnNotFound("second".to_string()))
    );
    assert_eq!(
        project_row(&row, &columns, &UNTYPED_BY_INDEX),
        Err(ProjectionError::ColumnNotFound("second".to_string()))
    );
}

#[test]
fn position_without_a_value_is_not_found() {
    let row = RemoteRow { values: vec![None, Some(SourceValue::Null)] };
    let columns = vec![column("present", DeclaredType::String, 1), column("absent", DeclaredType::String, 0)];
    assert_eq!(
        project_row(&row, &columns, &TYPED_BY_INDEX),
        Err(ProjectionError::ColumnNotFound("absent".to_string()))
    );
    assert_eq!(project_column(&row, &columns, 0, &TYPED_BY_INDEX), Ok(Cell::Null));
}

#[test]
fn first_failing_column_decides_the_error() {
    let row = text_row(&["x", "not-a-date"]);
    let columns = vec![
        column("ok", DeclaredType::String, 0),
        column("when", DeclaredType::Timestamp, 1),
        column("odd", DeclaredType::Uuid, 0),
        column("gone", DeclaredType::String, 9),
    ];
    assert_eq!(
        project_row(&row, &columns, &TYPED_BY_INDEX),
        Err(ProjectionError::MalformedTimestamp("when".to_string()))
    );
    let columns = vec![column("odd", DeclaredType::Uuid, 0), column("when", DeclaredType::Timestamp, 1)];
    assert_eq!(
        project_row(&row, &columns, &TYPED_BY_INDEX),
        Err(ProjectionError::UnsupportedType("odd".to_string()))
    );
}

#[test]
fn untyped_projection_never_fails_on_types() {
    let row = RemoteRow {
        values: vec![
            Some(SourceValue::Text("not-a-date".to_string())),
            Some(SourceValue::Number("2.5".to_string())),
            Some(SourceValue::Bool(false)),
        ],
    };
    let columns = vec![
        column("when", DeclaredType::Timestamp, 0),
        column("odd", DeclaredType::Uuid, 1),
        column("flag", DeclaredType::I64, 2),
    ];
    assert_eq!(
        project_row(&row, &columns, &UNTYPED_BY_INDEX),
        Ok(vec![Cell::String("not-a-date".into()), Cell::String("2.5".into()), Cell::String("false".into())])
    );
}

#[test]
fn equal_values_give_equal_cells_wherever_they_stand() {
    let first = RemoteRow {
        values: vec![Some(SourceValue::Text("12.9".into())), Some(SourceValue::Text("not-a-date".into()))],
    };
    let second = RemoteRow {
        values: vec![
            None,
            Some(SourceValue::Bool(true)),
            Some(SourceValue::Text("not-a-date".into())),
            Some(SourceValue::Text("12.9".into())),
        ],
    };
    let first_columns = vec![column("n", DeclaredType::I64, 0), column("t", DeclaredType::Timestamp, 1)];
    let second_columns = vec![
        column("flag", DeclaredType::Bool, 1),
        column("t", DeclaredType::Timestamp, 2),
        column("n", DeclaredType::I64, 3),
    ];
    assert_eq!(
        project_column(&first, &first_columns, 0, &TYPED_BY_INDEX),
        project_column(&second, &second_columns, 2, &TYPED_BY_INDEX)
    );
    assert_eq!(project_column(&first, &first_columns, 0, &TYPED_BY_INDEX), Ok(Cell::I64(12)));
    assert_eq!(
        project_column(&first, &first_columns, 1, &TYPED_BY_INDEX),
        project_column(&second, &second_columns, 1, &TYPED_BY_INDEX)
    );
    assert_eq!(
        project_column(&first, &first_columns, 1, &TYPED_BY_SEQUENCE),
        Err(ProjectionError::MalformedTimestamp("t".to_string()))
    );
}
