use whitenoise_validator::{
    nature_from_edges, ArrayND, ArrayProperties, Bin, DataType, DenseArray, ErrorKind, Nature,
    PrivacyDefinition, Real, Value, ValueProperties, Vector2DJagged, TICKS_PER_UNIT,
};

fn units(n: i32) -> Real {
    Real::from_int(n)
}

fn half_past(n: i32) -> Real {
    Real::from_ticks(units(n).ticks + TICKS_PER_UNIT / 2)
}

fn data_properties(columns: i64) -> ArrayProperties {
    ArrayProperties {
        nullity: false,
        releasable: false,
        nature: None,
        c_stability: vec![units(2); columns as usize],
        num_columns: Some(columns),
        num_records: Some(7),
        aggregator: Some("count".to_string()),
        data_type: DataType::I64,
    }
}

fn properties(columns: i64) -> Vec<(String, ValueProperties)> {
    vec![("data".to_string(), ValueProperties::ArrayND(data_properties(columns)))]
}

fn float_edges(cols: Vec<Vec<i32>>) -> Value {
    Value::Vector2DJagged(Vector2DJagged::F64(
        cols.into_iter().map(|c| Some(c.into_iter().map(units).collect())).collect(),
    ))
}

fn float_null(values: Vec<i32>) -> Value {
    if values.len() == 1 {
        Value::ArrayND(ArrayND::F64(DenseArray::scalar(units(values[0]))))
    } else {
        Value::ArrayND(ArrayND::F64(DenseArray::from_column(
            values.into_iter().map(units).collect(),
        )))
    }
}

fn arguments(edges: Value, null: Value) -> Vec<(String, Value)> {
    vec![("edges".to_string(), edges), ("null".to_string(), null)]
}

fn bin(side: &str) -> Bin {
    Bin { side: side.to_string() }
}

fn privacy() -> PrivacyDefinition {
    PrivacyDefinition {}
}

fn float_categories(p: &ValueProperties) -> Vec<Vec<Real>> {
    match p {
        ValueProperties::ArrayND(a) => match &a.nature {
            Some(Nature::Categorical(c)) => match &c.categories {
                Vector2DJagged::F64(cols) => cols.iter().map(|c| c.clone().unwrap()).collect(),
                other => panic!("unexpected categories {:?}", other),
            },
            other => panic!("unexpected nature {:?}", other),
        },
        other => panic!("unexpected properties {:?}", other),
    }
}

fn run(side: &str, edges: Value, null: Value, columns: i64) -> Result<ValueProperties, ErrorKind> {
    bin(side)
        .propagate_property(&privacy(), &arguments(edges, null), &properties(columns))
        .map_err(|e| e.kind)
}

#[test]
fn left_side_labels_bins_by_lower_edge() {
    let out = run("left", float_edges(vec![vec![0, 1, 2, 3]]), float_null(vec![-1]), 1).unwrap();
    assert_eq!(float_categories(&out), vec![vec![units(0), units(1), units(2), units(-1)]]);
}

#[test]
fn center_side_labels_bins_by_midpoint() {
    let out = run("center", float_edges(vec![vec![0, 1, 2, 3]]), float_null(vec![-1]), 1).unwrap();
    assert_eq!(
        float_categories(&out),
        vec![vec![half_past(0), half_past(1), half_past(2), units(-1)]]
    );
}

#[test]
fn right_side_labels_bins_by_upper_edge() {
    let out = run("right", float_edges(vec![vec![0, 1, 2, 3]]), float_null(vec![-1]), 1).unwrap();
    assert_eq!(float_categories(&out), vec![vec![units(1), units(2), units(3), units(-1)]]);
}

#[test]
fn integer_edges_with_float_null_are_rejected() {
    let edges = Value::Vector2DJagged(Vector2DJagged::I64(vec![Some(vec![0, 1, 2, 3])]));
    assert_eq!(run("left", edges, float_null(vec![-1]), 1).unwrap_err(), ErrorKind::TypeError);
}

#[test]
fn float_edges_with_integer_null_are_rejected() {
    let null = Value::ArrayND(ArrayND::I64(DenseArray::scalar(-1)));
    let out = run("left", float_edges(vec![vec![0, 1, 2, 3]]), null, 1);
    assert_eq!(out.unwrap_err(), ErrorKind::TypeError);
}

#[test]
fn text_edges_are_rejected() {
    let edges = Value::Vector2DJagged(Vector2DJagged::Str(vec![Some(vec!["a".to_string()])]));
    let null = Value::ArrayND(ArrayND::Str(DenseArray::scalar("z".to_string())));
    assert_eq!(run("left", edges, null, 1).unwrap_err(), ErrorKind::TypeError);
}

#[test]
fn shared_edges_are_broadcast_to_every_column() {
    let out = run("left", float_edges(vec![vec![0, 1, 2, 3]]), float_null(vec![-1]), 3).unwrap();
    let expected = vec![units(0), units(1), units(2), units(-1)];
    assert_eq!(float_categories(&out), vec![expected.clone(), expected.clone(), expected]);
}

#[test]
fn two_edge_lists_for_three_columns_fail() {
    let edges = float_edges(vec![vec![0, 1], vec![0, 2]]);
    assert_eq!(run("left", edges, float_null(vec![-1]), 3).unwrap_err(), ErrorKind::ShapeError);
}

#[test]
fn per_column_edges_and_nulls_stay_with_their_column() {
    let edges = float_edges(vec![vec![0, 1], vec![5, 6, 7]]);
    let out = run("right", edges, float_null(vec![-1, -2]), 2).unwrap();
    assert_eq!(
        float_categories(&out),
        vec![vec![units(1), units(-1)], vec![units(6), units(7), units(-2)]]
    );
}

#[test]
fn null_count_must_fit_the_columns() {
    let out = run("left", float_edges(vec![vec![0, 1]]), float_null(vec![-1, -2]), 3);
    assert_eq!(out.unwrap_err(), ErrorKind::ShapeError);
}

#[test]
fn absent_edge_column_fails() {
    let edges = Value::Vector2DJagged(Vector2DJagged::F64(vec![None]));
    assert_eq!(run("left", edges, float_null(vec![-1]), 1).unwrap_err(), ErrorKind::ShapeError);
}

#[test]
fn unknown_side_is_rejected() {
    let out = run("top", float_edges(vec![vec![0, 1, 2, 3]]), float_null(vec![-1]), 1);
    assert_eq!(out.unwrap_err(), ErrorKind::InvalidArgument);
}

#[test]
fn unknown_side_is_rejected_by_nature_from_edges() {
    let r = nature_from_edges(&"top".to_string(), &vec![vec![1i64, 2]]);
    assert_eq!(r.unwrap_err().kind, ErrorKind::InvalidArgument);
}

#[test]
fn center_with_fewer_than_two_edges_has_only_the_null_category() {
    let out = run("center", float_edges(vec![vec![4]]), float_null(vec![-1]), 1).unwrap();
    assert_eq!(float_categories(&out), vec![vec![units(-1)]]);
}

#[test]
fn integer_edges_give_integer_categories_and_float_type() {
    let edges = Value::Vector2DJagged(Vector2DJagged::I64(vec![Some(vec![1, 2, 5])]));
    let null = Value::ArrayND(ArrayND::I64(DenseArray::scalar(-9)));
    let out = run("center", edges, null, 1).unwrap();
    match out {
        ValueProperties::ArrayND(a) => {
            assert_eq!(a.data_type, DataType::F64);
            match a.nature {
                Some(Nature::Categorical(c)) => match c.categories {
                    Vector2DJagged::I64(cols) => assert_eq!(cols, vec![Some(vec![1, 3, -9])]),
                    other => panic!("unexpected categories {:?}", other),
                },
                other => panic!("unexpected nature {:?}", other),
            }
        }
        other => panic!("unexpected properties {:?}", other),
    }
}

#[test]
fn other_fields_pass_through() {
    let out = run("left", float_edges(vec![vec![0, 1]]), float_null(vec![-1]), 2).unwrap();
    match out {
        ValueProperties::ArrayND(a) => {
            assert!(!a.nullity);
            assert!(!a.releasable);
            assert_eq!(a.c_stability, vec![units(2), units(2)]);
            assert_eq!(a.num_columns, Some(2));
            assert_eq!(a.num_records, Some(7));
            assert_eq!(a.aggregator, Some("count".to_string()));
            assert_eq!(a.data_type, DataType::F64);
        }
        other => panic!("unexpected properties {:?}", other),
    }
}

#[test]
fn missing_arguments_are_reported() {
    let b = bin("left");
    let none: Vec<(String, ValueProperties)> = Vec::new();
    let args = arguments(float_edges(vec![vec![0, 1]]), float_null(vec![-1]));
    let e = b.propagate_property(&privacy(), &args, &none).unwrap_err();
    assert_eq!(e.kind, ErrorKind::MissingArgument);
    assert_eq!(e.context, vec!["data".to_string()]);

    let only_edges = vec![("edges".to_string(), float_edges(vec![vec![0, 1]]))];
    let e = b.propagate_property(&privacy(), &only_edges, &properties(1)).unwrap_err();
    assert_eq!(e.kind, ErrorKind::MissingArgument);
    assert_eq!(e.context, vec!["null".to_string()]);

    let only_null = vec![("null".to_string(), float_null(vec![-1]))];
    let e = b.propagate_property(&privacy(), &only_null, &properties(1)).unwrap_err();
    assert_eq!(e.kind, ErrorKind::MissingArgument);
    assert_eq!(e.context, vec!["edges".to_string()]);
}

#[test]
fn data_must_be_a_dense_array_with_known_columns() {
    let b = bin("left");
    let args = arguments(float_edges(vec![vec![0, 1]]), float_null(vec![-1]));
    let jagged = vec![(
        "data".to_string(),
        ValueProperties::Jagged(whitenoise_validator::JaggedProperties {}),
    )];
    let e = b.propagate_property(&privacy(), &args, &jagged).unwrap_err();
    assert_eq!(e.kind, ErrorKind::TypeError);

    let mut unknown = data_properties(1);
    unknown.num_columns = None;
    let props = vec![("data".to_string(), ValueProperties::ArrayND(unknown))];
    let e = b.propagate_property(&privacy(), &args, &props).unwrap_err();
    assert_eq!(e.kind, ErrorKind::ShapeError);
    assert_eq!(e.context, vec!["data".to_string()]);
}

#[test]
fn null_must_be_dense_and_edges_jagged() {
    let args = arguments(float_null(vec![0]), float_null(vec![-1]));
    let e = bin("left").propagate_property(&privacy(), &args, &properties(1)).unwrap_err();
    assert_eq!(e.kind, ErrorKind::TypeError);
    assert_eq!(e.context, vec!["edges".to_string()]);
}

#[test]
fn names_are_not_implemented() {
    let e = bin("left").get_names(&properties(1)).unwrap_err();
    assert_eq!(e.kind, ErrorKind::NotImplemented);
}
