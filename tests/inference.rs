use whitenoise_validator::{
    get_shape, infer_c_stability, infer_categories, infer_max, infer_min, infer_nature,
    infer_nullity, infer_num_columns, infer_num_rows, infer_property, ArrayND, DataType,
    DenseArray, ErrorKind, Hashmap, KeyedProperties, Nature, Real, Value, ValueProperties,
    Vector2DJagged,
};

fn units(n: i32) -> Real {
    Real::from_int(n)
}

fn reals(v: Vec<i32>) -> Vec<Real> {
    v.into_iter().map(units).collect()
}

fn float_column(v: Vec<i32>) -> Value {
    Value::ArrayND(ArrayND::F64(DenseArray::from_column(reals(v))))
}

/// A table of three rows and two columns: [[1, 9], [5, 2], [3, 4]].
fn float_table() -> Value {
    let data = reals(vec![1, 9, 5, 2, 3, 4]);
    Value::ArrayND(ArrayND::F64(DenseArray::from_rows(3, 2, data).unwrap()))
}

fn int_table() -> Value {
    Value::ArrayND(ArrayND::I64(DenseArray::from_rows(3, 2, vec![1, 9, 5, 2, 3, 4]).unwrap()))
}

fn float_jagged(cols: Vec<Option<Vec<i32>>>) -> Value {
    Value::Vector2DJagged(Vector2DJagged::F64(
        cols.into_iter().map(|c| c.map(reals)).collect(),
    ))
}

fn rank_three() -> Value {
    Value::ArrayND(ArrayND::I64(DenseArray { shape: vec![1, 1, 2], data: vec![1, 2] }))
}

fn keyed() -> Value {
    Value::Hashmap(Hashmap::Str(vec![
        ("a".to_string(), float_column(vec![2, 1])),
        ("b".to_string(), float_jagged(vec![Some(vec![1])])),
    ]))
}

#[test]
fn shape_of_a_scalar_is_empty() {
    let a = ArrayND::Bool(DenseArray::scalar(true));
    assert_eq!(get_shape(&a), Vec::<i64>::new());
}

#[test]
fn shape_of_a_table() {
    match float_table() {
        Value::ArrayND(a) => assert_eq!(get_shape(&a), vec![3, 2]),
        _ => unreachable!(),
    }
}

#[test]
fn column_counts() {
    assert_eq!(infer_num_columns(&float_column(vec![1, 2, 3])).unwrap(), Some(1));
    assert_eq!(infer_num_columns(&float_table()).unwrap(), Some(2));
    assert_eq!(infer_num_columns(&float_jagged(vec![None, Some(vec![1])])).unwrap(), Some(2));
    assert_eq!(infer_num_columns(&keyed()).unwrap_err().kind, ErrorKind::ShapeError);
    assert_eq!(infer_num_columns(&rank_three()).unwrap_err().kind, ErrorKind::ShapeError);
}

#[test]
fn row_counts() {
    assert_eq!(infer_num_rows(&ArrayND::I64(DenseArray::scalar(4))).unwrap(), 1);
    assert_eq!(infer_num_rows(&ArrayND::I64(DenseArray::from_column(vec![4, 5]))).unwrap(), 2);
    match rank_three() {
        Value::ArrayND(a) => assert_eq!(infer_num_rows(&a).unwrap_err().kind, ErrorKind::ShapeError),
        _ => unreachable!(),
    }
}

#[test]
fn bounds_of_a_single_column() {
    let v = float_column(vec![3, -2, 7]);
    assert_eq!(infer_min(&v).unwrap(), vec![Some(units(-2))]);
    assert_eq!(infer_max(&v).unwrap(), vec![Some(units(7))]);
}

#[test]
fn bounds_of_a_scalar() {
    let v = Value::ArrayND(ArrayND::I64(DenseArray::scalar(-4)));
    assert_eq!(infer_min(&v).unwrap(), vec![Some(units(-4))]);
    assert_eq!(infer_max(&v).unwrap(), vec![Some(units(-4))]);
}

#[test]
fn table_max_is_taken_per_column() {
    assert_eq!(infer_max(&float_table()).unwrap(), vec![Some(units(5)), Some(units(9))]);
    assert_eq!(infer_max(&int_table()).unwrap(), vec![Some(units(5)), Some(units(9))]);
}

#[test]
fn table_min_reuses_the_max_reduction() {
    assert_eq!(infer_min(&float_table()).unwrap(), vec![Some(units(5)), Some(units(9))]);
    assert_eq!(infer_min(&int_table()).unwrap(), vec![Some(units(5)), Some(units(9))]);
}

#[test]
fn jagged_bounds_per_column() {
    let v = float_jagged(vec![Some(vec![4, -1, 2]), None, Some(vec![])]);
    assert_eq!(infer_min(&v).unwrap(), vec![Some(units(-1)), None, None]);
    assert_eq!(infer_max(&v).unwrap(), vec![Some(units(4)), None, None]);
    let ints = Value::Vector2DJagged(Vector2DJagged::I64(vec![Some(vec![8, 3])]));
    assert_eq!(infer_min(&ints).unwrap(), vec![Some(units(3))]);
    assert_eq!(infer_max(&ints).unwrap(), vec![Some(units(8))]);
}

#[test]
fn integer_bounds_saturate_at_the_range_of_reals() {
    let v = Value::ArrayND(ArrayND::I64(DenseArray::from_column(vec![i64::MIN, i64::MAX])));
    assert_eq!(infer_min(&v).unwrap(), vec![Some(Real::from_ticks(i64::MIN))]);
    assert_eq!(infer_max(&v).unwrap(), vec![Some(Real::from_ticks(i64::MAX))]);
}

#[test]
fn bounds_of_non_numeric_values_fail() {
    let b = Value::ArrayND(ArrayND::Bool(DenseArray::scalar(true)));
    assert_eq!(infer_min(&b).unwrap_err().kind, ErrorKind::TypeError);
    assert_eq!(infer_max(&b).unwrap_err().kind, ErrorKind::TypeError);
    let s = Value::Vector2DJagged(Vector2DJagged::Str(vec![Some(vec!["x".to_string()])]));
    assert_eq!(infer_min(&s).unwrap_err().kind, ErrorKind::TypeError);
    assert_eq!(infer_min(&keyed()).unwrap_err().kind, ErrorKind::TypeError);
    assert_eq!(infer_max(&keyed()).unwrap_err().kind, ErrorKind::TypeError);
    assert_eq!(infer_max(&rank_three()).unwrap_err().kind, ErrorKind::ShapeError);
}

#[test]
fn bound_lists_have_one_entry_per_column() {
    for v in [float_column(vec![1, 2]), float_table(), int_table(), float_jagged(vec![None, Some(vec![3])])] {
        let n = infer_num_columns(&v).unwrap().unwrap() as usize;
        assert_eq!(infer_min(&v).unwrap().len(), n);
        assert_eq!(infer_max(&v).unwrap().len(), n);
    }
}

#[test]
fn min_is_at_most_max() {
    for v in [float_column(vec![6, -3, 2]), float_table(), int_table(), float_jagged(vec![Some(vec![9, 1]), Some(vec![0])])] {
        let lo = infer_min(&v).unwrap();
        let hi = infer_max(&v).unwrap();
        for (l, h) in lo.iter().zip(hi.iter()) {
            assert!(l.unwrap().ticks <= h.unwrap().ticks);
        }
    }
}

#[test]
fn jagged_categories_are_sorted_and_distinct() {
    match infer_categories(&float_jagged(vec![Some(vec![3, 1, 1, 2])])).unwrap() {
        Vector2DJagged::F64(cols) => assert_eq!(cols, vec![Some(reals(vec![1, 2, 3]))]),
        other => panic!("unexpected categories {:?}", other),
    }
}

#[test]
fn dense_categories_keep_order_and_duplicates() {
    match infer_categories(&float_column(vec![3, 1, 1, 2])).unwrap() {
        Vector2DJagged::F64(cols) => assert_eq!(cols, vec![Some(reals(vec![3, 1, 1, 2]))]),
        other => panic!("unexpected categories {:?}", other),
    }
}

#[test]
fn dense_table_categories_are_its_columns() {
    match infer_categories(&int_table()).unwrap() {
        Vector2DJagged::I64(cols) => assert_eq!(cols, vec![Some(vec![1, 5, 3]), Some(vec![9, 2, 4])]),
        other => panic!("unexpected categories {:?}", other),
    }
}

#[test]
fn jagged_text_and_bool_categories() {
    let s = Value::Vector2DJagged(Vector2DJagged::Str(vec![
        Some(vec!["pear".to_string(), "apple".to_string(), "pear".to_string(), "fig".to_string()]),
        None,
    ]));
    match infer_categories(&s).unwrap() {
        Vector2DJagged::Str(cols) => assert_eq!(
            cols,
            vec![Some(vec!["apple".to_string(), "fig".to_string(), "pear".to_string()]), None]
        ),
        other => panic!("unexpected categories {:?}", other),
    }
    let b = Value::Vector2DJagged(Vector2DJagged::Bool(vec![Some(vec![true, false, true])]));
    match infer_categories(&b).unwrap() {
        Vector2DJagged::Bool(cols) => assert_eq!(cols, vec![Some(vec![false, true])]),
        other => panic!("unexpected categories {:?}", other),
    }
    let i = Value::Vector2DJagged(Vector2DJagged::I64(vec![Some(vec![5, -1, 5, 0])]));
    match infer_categories(&i).unwrap() {
        Vector2DJagged::I64(cols) => assert_eq!(cols, vec![Some(vec![-1, 0, 5])]),
        other => panic!("unexpected categories {:?}", other),
    }
}

#[test]
fn categories_of_a_keyed_map_are_not_implemented() {
    assert_eq!(infer_categories(&keyed()).unwrap_err().kind, ErrorKind::NotImplemented);
}

#[test]
fn natures() {
    match infer_nature(&float_column(vec![2, 8])).unwrap() {
        Some(Nature::Continuous(c)) => {
            assert_eq!(c.min, vec![Some(units(2))]);
            assert_eq!(c.max, vec![Some(units(8))]);
        }
        other => panic!("unexpected nature {:?}", other),
    }
    let b = Value::ArrayND(ArrayND::Bool(DenseArray::from_column(vec![true, true])));
    match infer_nature(&b).unwrap() {
        Some(Nature::Categorical(c)) => match c.categories {
            Vector2DJagged::Bool(cols) => assert_eq!(cols, vec![Some(vec![true, true])]),
            other => panic!("unexpected categories {:?}", other),
        },
        other => panic!("unexpected nature {:?}", other),
    }
    let s = Value::ArrayND(ArrayND::Str(DenseArray::scalar("x".to_string())));
    assert!(infer_nature(&s).unwrap().is_none());
    assert!(infer_nature(&keyed()).unwrap().is_none());
    let js = Value::Vector2DJagged(Vector2DJagged::Str(vec![Some(vec!["b".to_string(), "a".to_string()])]));
    assert!(matches!(infer_nature(&js).unwrap(), Some(Nature::Categorical(_))));
    assert_eq!(infer_nature(&rank_three()).unwrap_err().kind, ErrorKind::ShapeError);
}

#[test]
fn nullity_is_always_assumed() {
    assert!(infer_nullity(&float_column(vec![1])).unwrap());
    assert!(infer_nullity(&keyed()).unwrap());
}

#[test]
fn stability_is_one_per_column() {
    assert_eq!(infer_c_stability(&float_table()).unwrap(), vec![Real::one(), Real::one()]);
    assert_eq!(infer_c_stability(&keyed()).unwrap_err().kind, ErrorKind::ShapeError);
}

#[test]
fn properties_of_a_table() {
    match infer_property(&int_table()).unwrap() {
        ValueProperties::ArrayND(p) => {
            assert!(p.nullity);
            assert!(p.releasable);
            assert_eq!(p.c_stability, vec![Real::one(), Real::one()]);
            assert_eq!(p.num_columns, Some(2));
            assert_eq!(p.num_records, Some(3));
            assert_eq!(p.aggregator, None);
            assert_eq!(p.data_type, DataType::I64);
            assert!(matches!(p.nature, Some(Nature::Continuous(_))));
        }
        other => panic!("unexpected properties {:?}", other),
    }
}

#[test]
fn properties_of_a_keyed_map() {
    match infer_property(&keyed()).unwrap() {
        ValueProperties::Hashmap(h) => {
            assert_eq!(h.num_records, None);
            assert!(!h.disjoint);
            match h.value_properties {
                KeyedProperties::Str(entries) => {
                    assert_eq!(entries.len(), 2);
                    assert_eq!(entries[0].0, "a");
                    assert!(matches!(entries[0].1, ValueProperties::ArrayND(_)));
                    assert_eq!(entries[1].0, "b");
                    assert!(matches!(entries[1].1, ValueProperties::Jagged(_)));
                }
                other => panic!("unexpected entries {:?}", other),
            }
        }
        other => panic!("unexpected properties {:?}", other),
    }
}

#[test]
fn properties_fail_on_rank_above_two() {
    assert_eq!(infer_property(&rank_three()).unwrap_err().kind, ErrorKind::ShapeError);
    let nested = Value::Hashmap(Hashmap::I64(vec![(1, rank_three())]));
    assert_eq!(infer_property(&nested).unwrap_err().kind, ErrorKind::ShapeError);
}

#[test]
fn inferring_twice_gives_identical_properties() {
    let v = float_table();
    let a = format!("{:?}", infer_property(&v).unwrap());
    let b = format!("{:?}", infer_property(&v).unwrap());
    assert_eq!(a, b);
    let k = keyed();
    assert_eq!(format!("{:?}", infer_property(&k).unwrap()), format!("{:?}", infer_property(&k).unwrap()));
}
