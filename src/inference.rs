//! Properties of public values, inferred from the values themselves.
use vstd::prelude::*;
use crate::bounds::{
    bound_of_ints, bound_of_reals, int_bound, lemma_int_bounds_ordered, lemma_real_bounds_ordered,
    real_bound,
};
use crate::error::{Error, ErrorKind};
use crate::fixed::{lemma_real_of_int_monotone, real_of_int, Real, TICKS_PER_UNIT};
use crate::order::{sorted_distinct, sorted_distinct_of, Category};
use crate::properties::{
    ArrayProperties, DataType, HashmapProperties, JaggedProperties, KeyedProperties, Nature,
    NatureCategorical, NatureContinuous, ValueProperties,
};
use crate::value::{cells, ArrayND, DenseArray, Hashmap, Value, Vector2DJagged};

verus! {

broadcast use vstd::std_specs::vec::axiom_vec_index_decreases;

/// Every dense array inside `v` holds one element per cell of its shape.
pub open spec fn value_wf(v: Value) -> bool
    decreases v,
{
    match v {
        Value::ArrayND(a) => a.wf(),
        Value::Vector2DJagged(_) => true,
        Value::Hashmap(Hashmap::Str(es)) => forall|i: int|
            0 <= i < es@.len() ==> value_wf(#[trigger] es@[i].1),
        Value::Hashmap(Hashmap::I64(es)) => forall|i: int|
            0 <= i < es@.len() ==> value_wf(#[trigger] es@[i].1),
        Value::Hashmap(Hashmap::Bool(es)) => forall|i: int|
            0 <= i < es@.len() ==> value_wf(#[trigger] es@[i].1),
    }
}

/// The number of columns of a dense array or of jagged columns; `None` for
/// an array of rank above two and for a keyed map.
pub open spec fn column_count(v: Value) -> Option<int> {
    match v {
        Value::ArrayND(a) => if a.shape_view().len() <= 1 {
            Some(1)
        } else if a.shape_view().len() == 2 {
            Some(a.shape_view()[1] as int)
        } else {
            None
        },
        Value::Vector2DJagged(j) => Some(j.spec_len()),
        Value::Hashmap(_) => None,
    }
}

/// The dimensions of `array`, one per axis.
pub fn get_shape(array: &ArrayND) -> (r: Vec<i64>)
    ensures
        r@.len() == array.shape_view().len(),
        forall|i: int| 0 <= i < r@.len() ==> r@[i] == array.shape_view()[i] as i64,
{
    let shape = match array {
        ArrayND::Bool(a) => &a.shape,
        ArrayND::F64(a) => &a.shape,
        ArrayND::I64(a) => &a.shape,
        ArrayND::Str(a) => &a.shape,
    };
    let mut r: Vec<i64> = Vec::new();
    let mut i: usize = 0;
    while i < shape.len()
        invariant
            i <= shape@.len(),
            shape@ == array.shape_view(),
            r@.len() == i,
            forall|k: int| 0 <= k < i ==> r@[k] == shape@[k] as i64,
        decreases shape@.len() - i,
    {
        r.push(shape[i] as i64);
        i += 1;
    }
    r
}

/// The number of columns: one for a dense array of rank 0 or 1, the size of
/// axis 1 for rank 2, the number of jagged columns; a shape error for rank
/// above two and for a keyed map.
pub fn infer_num_columns(value: &Value) -> (r: Result<Option<i64>, Error>)
    ensures
        column_count(*value) is None <==> r is Err,
        r matches Err(e) ==> e.kind == ErrorKind::ShapeError,
        r matches Ok(n) ==> n == Some(column_count(*value).unwrap() as i64),
{
    match value {
        Value::ArrayND(array) => {
            let shape = get_shape(array);
            if shape.len() <= 1 {
                Ok(Some(1))
            } else if shape.len() == 2 {
                Ok(Some(shape[1]))
            } else {
                Err(Error::new(ErrorKind::ShapeError, "arrays may have max dimensionality of 2"))
            }
        },
        Value::Hashmap(_) => Err(
            Error::new(ErrorKind::ShapeError, "cannot infer number of columns on a hashmap"),
        ),
        Value::Vector2DJagged(j) => Ok(
            Some(
                match j {
                    Vector2DJagged::Bool(v) => v.len(),
                    Vector2DJagged::F64(v) => v.len(),
                    Vector2DJagged::I64(v) => v.len(),
                    Vector2DJagged::Str(v) => v.len(),
                } as i64,
            ),
        ),
    }
}

/// The number of rows: one for rank 0, the size of axis 0 for rank 1 and 2;
/// a shape error above.
pub fn infer_num_rows(value: &ArrayND) -> (r: Result<i64, Error>)
    ensures
        value.shape_view().len() > 2 <==> r is Err,
        r matches Err(e) ==> e.kind == ErrorKind::ShapeError,
        r matches Ok(n) ==> n == if value.shape_view().len() == 0 {
            1
        } else {
            value.shape_view()[0] as i64
        },
{
    let shape = get_shape(value);
    if shape.len() == 0 {
        Ok(1)
    } else if shape.len() <= 2 {
        Ok(shape[0])
    } else {
        Err(Error::new(ErrorKind::ShapeError, "arrays may have max dimensionality of 2"))
    }
}

/// Row `r` and column `c` lie inside a table of `rows` by `columns` cells.
proof fn lemma_cell_in_table(r: int, c: int, rows: int, columns: int)
    requires
        0 <= r < rows,
        0 <= c < columns,
    ensures
        0 <= r * columns + c < rows * columns,
{
    assert(r * columns + c < rows * columns) by (nonlinear_arith)
        requires
            0 <= r < rows,
            0 <= c < columns,
    ;
    assert(0 <= r * columns) by (nonlinear_arith)
        requires
            0 <= r,
            0 <= c < columns,
    ;
}

/// `Some` integer as a `Real`.
pub open spec fn real_of_opt(o: Option<i64>) -> Option<Real> {
    match o {
        Some(m) => Some(real_of_int(m as int)),
        None => None,
    }
}

/// The per-column bounds of a floating array: the bound over all elements
/// for rank 0 and 1; for rank 2 the largest element of each column, whichever
/// bound is asked for.
pub open spec fn dense_real_bounds(x: DenseArray<Real>, hi: bool) -> Seq<Option<Real>> {
    if x.rank() <= 1 {
        seq![real_bound(x.data@, hi)]
    } else {
        Seq::new(x.shape@[1] as nat, |c: int| real_bound(x.column(c), true))
    }
}

/// The per-column bounds of an integer array, as for a floating one.
pub open spec fn dense_int_bounds(x: DenseArray<i64>, hi: bool) -> Seq<Option<Real>> {
    if x.rank() <= 1 {
        seq![real_of_opt(int_bound(x.data@, hi))]
    } else {
        Seq::new(x.shape@[1] as nat, |c: int| real_of_opt(int_bound(x.column(c), true)))
    }
}

/// The bound of each present jagged column; `None` for an absent one.
pub open spec fn jagged_real_bounds(v: Seq<Option<Vec<Real>>>, hi: bool) -> Seq<Option<Real>> {
    Seq::new(
        v.len(),
        |c: int|
            match v[c] {
                Some(col) => real_bound(col@, hi),
                None => None,
            },
    )
}

/// The bound of each present jagged column; `None` for an absent one.
pub open spec fn jagged_int_bounds(v: Seq<Option<Vec<i64>>>, hi: bool) -> Seq<Option<Real>> {
    Seq::new(
        v.len(),
        |c: int|
            match v[c] {
                Some(col) => real_of_opt(int_bound(col@, hi)),
                None => None,
            },
    )
}

/// Why numeric bounds of `v` cannot be inferred, if they can not.
pub open spec fn bounds_failure(v: Value) -> Option<ErrorKind> {
    match v {
        Value::ArrayND(a) => if a.shape_view().len() > 2 {
            Some(ErrorKind::ShapeError)
        } else if a is F64 || a is I64 {
            None
        } else {
            Some(ErrorKind::TypeError)
        },
        Value::Vector2DJagged(j) => if j is F64 || j is I64 {
            None
        } else {
            Some(ErrorKind::TypeError)
        },
        Value::Hashmap(_) => Some(ErrorKind::TypeError),
    }
}

/// The per-column bounds of a numeric value (largest when `hi`).
pub open spec fn bounds_of(v: Value, hi: bool) -> Seq<Option<Real>> {
    match v {
        Value::ArrayND(ArrayND::F64(x)) => dense_real_bounds(x, hi),
        Value::ArrayND(ArrayND::I64(x)) => dense_int_bounds(x, hi),
        Value::Vector2DJagged(Vector2DJagged::F64(v)) => jagged_real_bounds(v@, hi),
        Value::Vector2DJagged(Vector2DJagged::I64(v)) => jagged_int_bounds(v@, hi),
        _ => Seq::empty(),
    }
}

fn real_of_bound(o: Option<i64>) -> (r: Option<Real>)
    ensures
        r == real_of_opt(o),
{
    match o {
        Some(m) => Some(Real::from_i64(m)),
        None => None,
    }
}

fn dense_bounds_reals(x: &DenseArray<Real>, hi: bool) -> (r: Vec<Option<Real>>)
    requires
        x.wf(),
        x.rank() <= 2,
    ensures
        r@ == dense_real_bounds(*x, hi),
{
    let mut r: Vec<Option<Real>> = Vec::new();
    if x.shape.len() <= 1 {
        r.push(bound_of_reals(&x.data, hi));
        proof {
            assert(r@ =~= dense_real_bounds(*x, hi));
        }
        return r;
    }
    let columns = x.shape[1];
    let mut c: usize = 0;
    while c < columns
        invariant
            x.wf(),
            x.rank() == 2,
            columns == x.shape@[1],
            c <= columns,
            r@ == dense_real_bounds(*x, hi).take(c as int),
        decreases columns - c,
    {
        let col = column_copies(x, c);
        r.push(bound_of_reals(&col, true));
        c += 1;
        proof {
            assert(r@ =~= dense_real_bounds(*x, hi).take(c as int));
        }
    }
    proof {
        assert(r@ =~= dense_real_bounds(*x, hi));
    }
    r
}

fn dense_bounds_ints(x: &DenseArray<i64>, hi: bool) -> (r: Vec<Option<Real>>)
    requires
        x.wf(),
        x.rank() <= 2,
    ensures
        r@ == dense_int_bounds(*x, hi),
{
    let mut r: Vec<Option<Real>> = Vec::new();
    if x.shape.len() <= 1 {
        r.push(real_of_bound(bound_of_ints(&x.data, hi)));
        proof {
            assert(r@ =~= dense_int_bounds(*x, hi));
        }
        return r;
    }
    let columns = x.shape[1];
    let mut c: usize = 0;
    while c < columns
        invariant
            x.wf(),
            x.rank() == 2,
            columns == x.shape@[1],
            c <= columns,
            r@ == dense_int_bounds(*x, hi).take(c as int),
        decreases columns - c,
    {
        let col = column_copies(x, c);
        r.push(real_of_bound(bound_of_ints(&col, true)));
        c += 1;
        proof {
            assert(r@ =~= dense_int_bounds(*x, hi).take(c as int));
        }
    }
    proof {
        assert(r@ =~= dense_int_bounds(*x, hi));
    }
    r
}

fn jagged_bounds_reals(v: &Vec<Option<Vec<Real>>>, hi: bool) -> (r: Vec<Option<Real>>)
    ensures
        r@ == jagged_real_bounds(v@, hi),
{
    let mut r: Vec<Option<Real>> = Vec::new();
    let mut c: usize = 0;
    while c < v.len()
        invariant
            c <= v@.len(),
            r@ == jagged_real_bounds(v@, hi).take(c as int),
        decreases v@.len() - c,
    {
        let b = match &v[c] {
            Some(col) => bound_of_reals(col, hi),
            None => None,
        };
        r.push(b);
        c += 1;
        proof {
            assert(r@ =~= jagged_real_bounds(v@, hi).take(c as int));
        }
    }
    proof {
        assert(r@ =~= jagged_real_bounds(v@, hi));
    }
    r
}

fn jagged_bounds_ints(v: &Vec<Option<Vec<i64>>>, hi: bool) -> (r: Vec<Option<Real>>)
    ensures
        r@ == jagged_int_bounds(v@, hi),
{
    let mut r: Vec<Option<Real>> = Vec::new();
    let mut c: usize = 0;
    while c < v.len()
        invariant
            c <= v@.len(),
            r@ == jagged_int_bounds(v@, hi).take(c as int),
        decreases v@.len() - c,
    {
        let b = match &v[c] {
            Some(col) => real_of_bound(bound_of_ints(col, hi)),
            None => None,
        };
        r.push(b);
        c += 1;
        proof {
            assert(r@ =~= jagged_int_bounds(v@, hi).take(c as int));
        }
    }
    proof {
        assert(r@ =~= jagged_int_bounds(v@, hi));
    }
    r
}

fn infer_bounds(value: &Value, hi: bool) -> (r: Result<Vec<Option<Real>>, Error>)
    requires
        value_wf(*value),
    ensures
        bounds_failure(*value) is Some <==> r is Err,
        r matches Err(e) ==> e.kind == bounds_failure(*value).unwrap(),
        r matches Ok(b) ==> b@ == bounds_of(*value, hi),
{
    match value {
        Value::ArrayND(array) => {
            let rank = match array {
                ArrayND::Bool(x) => x.shape.len(),
                ArrayND::F64(x) => x.shape.len(),
                ArrayND::I64(x) => x.shape.len(),
                ArrayND::Str(x) => x.shape.len(),
            };
            if rank > 2 {
                return Err(
                    Error::new(ErrorKind::ShapeError, "arrays may have max dimensionality of 2"),
                );
            }
            match array {
                ArrayND::F64(x) => Ok(dense_bounds_reals(x, hi)),
                ArrayND::I64(x) => Ok(dense_bounds_ints(x, hi)),
                _ => Err(
                    Error::new(ErrorKind::TypeError, "cannot infer numeric bounds of a non-numeric vector"),
                ),
            }
        },
        Value::Vector2DJagged(Vector2DJagged::F64(v)) => Ok(jagged_bounds_reals(v, hi)),
        Value::Vector2DJagged(Vector2DJagged::I64(v)) => Ok(jagged_bounds_ints(v, hi)),
        Value::Vector2DJagged(_) => Err(
            Error::new(ErrorKind::TypeError, "cannot infer numeric bounds of a non-numeric vector"),
        ),
        Value::Hashmap(_) => Err(
            Error::new(ErrorKind::TypeError, "bound inference is not compatible with a hashmap"),
        ),
    }
}

/// The smallest element of each column, as far as it is known. A floating or
/// integer dense array of rank 0 or 1 is one column; for rank 2 this yields
/// each column's largest element (see `dense_real_bounds`). A jagged column
/// that is absent or empty has no known bound.
pub fn infer_min(value: &Value) -> (r: Result<Vec<Option<Real>>, Error>)
    requires
        value_wf(*value),
    ensures
        bounds_failure(*value) is Some <==> r is Err,
        r matches Err(e) ==> e.kind == bounds_failure(*value).unwrap(),
        r matches Ok(b) ==> b@ == bounds_of(*value, false),
{
    infer_bounds(value, false)
}

/// The largest element of each column, as far as it is known.
pub fn infer_max(value: &Value) -> (r: Result<Vec<Option<Real>>, Error>)
    requires
        value_wf(*value),
    ensures
        bounds_failure(*value) is Some <==> r is Err,
        r matches Err(e) ==> e.kind == bounds_failure(*value).unwrap(),
        r matches Ok(b) ==> b@ == bounds_of(*value, true),
{
    infer_bounds(value, true)
}

/// The columns of a dense array of rank at most two: the whole array for
/// rank 0 and 1, each column from top to bottom for rank 2.
pub open spec fn dense_columns<T>(x: DenseArray<T>) -> Seq<Seq<T>> {
    if x.rank() <= 1 {
        seq![x.data@]
    } else {
        Seq::new(x.shape@[1] as nat, |c: int| x.column(c))
    }
}

/// `r` holds, for each column of `x`, its elements in their order.
pub open spec fn lists_columns<T>(r: Seq<Option<Vec<T>>>, x: DenseArray<T>) -> bool {
    &&& r.len() == dense_columns(x).len()
    &&& forall|c: int|
        0 <= c < r.len() ==> (#[trigger] r[c]) is Some && r[c].unwrap()@ == dense_columns(x)[c]
}

/// `r` holds, for each present column of `v`, its distinct elements in order,
/// and is absent where `v` is.
pub open spec fn lists_distinct<T: Category>(r: Seq<Option<Vec<T>>>, v: Seq<Option<Vec<T>>>) -> bool {
    &&& r.len() == v.len()
    &&& forall|c: int|
        0 <= c < r.len() ==> match v[c] {
            Some(col) => (#[trigger] r[c]) matches Some(rc) && sorted_distinct_of(rc@, col@),
            None => r[c] is None,
        }
}

/// Why categories of `v` cannot be inferred, if they can not.
pub open spec fn categories_failure(v: Value) -> Option<ErrorKind> {
    match v {
        Value::ArrayND(a) => if a.shape_view().len() > 2 {
            Some(ErrorKind::ShapeError)
        } else {
            None
        },
        Value::Vector2DJagged(_) => None,
        Value::Hashmap(_) => Some(ErrorKind::NotImplemented),
    }
}

/// `r` holds the categories of `v`: the raw columns of a dense array, the
/// sorted distinct elements of each present jagged column.
pub open spec fn categories_describe(v: Value, r: Vector2DJagged) -> bool {
    match (v, r) {
        (Value::ArrayND(ArrayND::Bool(x)), Vector2DJagged::Bool(c)) => lists_columns(c@, x),
        (Value::ArrayND(ArrayND::F64(x)), Vector2DJagged::F64(c)) => lists_columns(c@, x),
        (Value::ArrayND(ArrayND::I64(x)), Vector2DJagged::I64(c)) => lists_columns(c@, x),
        (Value::ArrayND(ArrayND::Str(x)), Vector2DJagged::Str(c)) => lists_columns(c@, x),
        (Value::Vector2DJagged(Vector2DJagged::Bool(v)), Vector2DJagged::Bool(c)) => lists_distinct(c@, v@),
        (Value::Vector2DJagged(Vector2DJagged::F64(v)), Vector2DJagged::F64(c)) => lists_distinct(c@, v@),
        (Value::Vector2DJagged(Vector2DJagged::I64(v)), Vector2DJagged::I64(c)) => lists_distinct(c@, v@),
        (Value::Vector2DJagged(Vector2DJagged::Str(v)), Vector2DJagged::Str(c)) => lists_distinct(c@, v@),
        _ => false,
    }
}

/// A copy of `s`.
pub fn copy_all<T: Category>(s: &Vec<T>) -> (r: Vec<T>)
    ensures
        r@ == s@,
{
    let mut r: Vec<T> = Vec::new();
    let mut i: usize = 0;
    while i < s.len()
        invariant
            i <= s@.len(),
            r@ == s@.take(i as int),
        decreases s@.len() - i,
    {
        r.push(s[i].duplicate());
        i += 1;
        proof {
            assert(r@ =~= s@.take(i as int));
        }
    }
    proof {
        assert(s@.take(s@.len() as int) =~= s@);
    }
    r
}

/// The elements of column `c` of a table, from top to bottom.
pub fn column_copies<T: Category>(a: &DenseArray<T>, c: usize) -> (r: Vec<T>)
    requires
        a.wf(),
        a.rank() == 2,
        c < a.shape@[1],
    ensures
        r@ == a.column(c as int),
{
    let rows = a.shape[0];
    let columns = a.shape[1];
    proof {
        reveal_with_fuel(cells, 3);
        assert(a.shape@.drop_last().drop_last() =~= Seq::<usize>::empty());
        assert(a.data@.len() == rows * columns);
    }
    let total = a.data.len();
    let mut r: Vec<T> = Vec::new();
    let mut i: usize = 0;
    while i < rows
        invariant
            total == a.data@.len(),
            i <= rows,
            rows == a.shape@[0],
            columns == a.shape@[1],
            c < columns,
            a.data@.len() == rows * columns,
            a.rank() == 2,
            r@.len() == i,
            forall|k: int| 0 <= k < i ==> r@[k] == a.data@[k * columns + c],
        decreases rows - i,
    {
        proof {
            lemma_cell_in_table(i as int, c as int, rows as int, columns as int);
        }
        r.push(a.data[i * columns + c].duplicate());
        i += 1;
    }
    proof {
        assert(r@ =~= a.column(c as int));
    }
    r
}

/// The columns of a dense array of rank at most two, each as a category list.
pub fn dense_column_lists<T: Category>(x: &DenseArray<T>) -> (r: Vec<Option<Vec<T>>>)
    requires
        x.wf(),
        x.rank() <= 2,
    ensures
        lists_columns(r@, *x),
{
    let mut r: Vec<Option<Vec<T>>> = Vec::new();
    if x.shape.len() <= 1 {
        r.push(Some(copy_all(&x.data)));
        return r;
    }
    let columns = x.shape[1];
    let mut c: usize = 0;
    while c < columns
        invariant
            x.wf(),
            x.rank() == 2,
            columns == x.shape@[1],
            c <= columns,
            r@.len() == c,
            forall|k: int|
                0 <= k < c ==> (#[trigger] r@[k]) is Some && r@[k].unwrap()@ == dense_columns(
                    *x,
                )[k],
        decreases columns - c,
    {
        r.push(Some(column_copies(x, c)));
        c += 1;
    }
    r
}

/// The sorted distinct elements of each present column.
pub fn jagged_distinct_lists<T: Category>(v: &Vec<Option<Vec<T>>>) -> (r: Vec<Option<Vec<T>>>)
    ensures
        lists_distinct(r@, v@),
{
    let mut r: Vec<Option<Vec<T>>> = Vec::new();
    let mut c: usize = 0;
    while c < v.len()
        invariant
            c <= v@.len(),
            r@.len() == c,
            forall|k: int|
                0 <= k < c ==> match v@[k] {
                    Some(col) => (#[trigger] r@[k]) matches Some(rc) && sorted_distinct_of(
                        rc@,
                        col@,
                    ),
                    None => r@[k] is None,
                },
        decreases v@.len() - c,
    {
        let item = match &v[c] {
            Some(col) => Some(sorted_distinct(col)),
            None => None,
        };
        r.push(item);
        c += 1;
    }
    r
}

fn dense_rank(a: &ArrayND) -> (r: usize)
    ensures
        r == a.shape_view().len(),
{
    match a {
        ArrayND::Bool(x) => x.shape.len(),
        ArrayND::F64(x) => x.shape.len(),
        ArrayND::I64(x) => x.shape.len(),
        ArrayND::Str(x) => x.shape.len(),
    }
}

/// The categories of each column: for a dense array, each column's values
/// as they stand, duplicates and order kept; for jagged columns, each present
/// column's distinct values in ascending order. Not implemented for keyed maps.
pub fn infer_categories(value: &Value) -> (r: Result<Vector2DJagged, Error>)
    requires
        value_wf(*value),
    ensures
        categories_failure(*value) is Some <==> r is Err,
        r matches Err(e) ==> e.kind == categories_failure(*value).unwrap(),
        r matches Ok(c) ==> categories_describe(*value, c),
{
    match value {
        Value::ArrayND(array) => {
            if dense_rank(array) > 2 {
                return Err(
                    Error::new(ErrorKind::ShapeError, "arrays may have max dimensionality of 2"),
                );
            }
            Ok(
                match array {
                    ArrayND::Bool(x) => Vector2DJagged::Bool(dense_column_lists(x)),
                    ArrayND::F64(x) => Vector2DJagged::F64(dense_column_lists(x)),
                    ArrayND::I64(x) => Vector2DJagged::I64(dense_column_lists(x)),
                    ArrayND::Str(x) => Vector2DJagged::Str(dense_column_lists(x)),
                },
            )
        },
        Value::Vector2DJagged(j) => Ok(
            match j {
                Vector2DJagged::Bool(v) => Vector2DJagged::Bool(jagged_distinct_lists(v)),
                Vector2DJagged::F64(v) => Vector2DJagged::F64(jagged_distinct_lists(v)),
                Vector2DJagged::I64(v) => Vector2DJagged::I64(jagged_distinct_lists(v)),
                Vector2DJagged::Str(v) => Vector2DJagged::Str(jagged_distinct_lists(v)),
            },
        ),
        Value::Hashmap(_) => Err(
            Error::new(ErrorKind::NotImplemented, "category inference is not implemented for hashmaps"),
        ),
    }
}

/// Why the nature of `v` cannot be inferred, if it can not: a numeric or
/// boolean dense array of rank above two.
pub open spec fn nature_failure(v: Value) -> Option<ErrorKind> {
    match v {
        Value::ArrayND(a) => if a !is Str && a.shape_view().len() > 2 {
            Some(ErrorKind::ShapeError)
        } else {
            None
        },
        _ => None,
    }
}

/// `n` is the nature of `v`: continuous with the inferred bounds for numeric
/// data, categorical with the inferred categories for boolean data and for
/// jagged text columns, and unknown for dense text arrays and keyed maps.
pub open spec fn nature_describes(v: Value, n: Option<Nature>) -> bool {
    match v {
        Value::ArrayND(ArrayND::Str(_)) => n is None,
        Value::ArrayND(ArrayND::Bool(_)) | Value::Vector2DJagged(Vector2DJagged::Bool(_))
        | Value::Vector2DJagged(Vector2DJagged::Str(_)) => {
            &&& n matches Some(Nature::Categorical(k))
            &&& categories_describe(v, k.categories)
        },
        Value::Hashmap(_) => n is None,
        _ => {
            &&& n matches Some(Nature::Continuous(k))
            &&& k.min@ == bounds_of(v, false)
            &&& k.max@ == bounds_of(v, true)
        },
    }
}

/// The nature of `value` (see `nature_describes`).
pub fn infer_nature(value: &Value) -> (r: Result<Option<Nature>, Error>)
    requires
        value_wf(*value),
    ensures
        nature_failure(*value) is Some <==> r is Err,
        r matches Err(e) ==> e.kind == nature_failure(*value).unwrap(),
        r matches Ok(n) ==> nature_describes(*value, n),
{
    match value {
        Value::ArrayND(ArrayND::Str(_)) => Ok(None),
        Value::ArrayND(ArrayND::Bool(_)) | Value::Vector2DJagged(Vector2DJagged::Bool(_))
        | Value::Vector2DJagged(Vector2DJagged::Str(_)) => {
            let categories = infer_categories(value)?;
            Ok(Some(Nature::Categorical(NatureCategorical { categories })))
        },
        Value::Hashmap(_) => Ok(None),
        _ => {
            let min = infer_min(value)?;
            let max = infer_max(value)?;
            Ok(Some(Nature::Continuous(NatureContinuous { min, max })))
        },
    }
}

/// Whether `value` may hold nulls: always assumed, since it is not derived
/// from the contents.
pub fn infer_nullity(value: &Value) -> (r: Result<bool, Error>)
    ensures
        r == Ok::<bool, Error>(true),
{
    Ok(true)
}

/// `n` copies of the number one (none for a negative `n`).
pub open spec fn ones(n: int) -> Seq<Real> {
    Seq::new(
        if n < 0 {
            0
        } else {
            n as nat
        },
        |i: int| Real { ticks: TICKS_PER_UNIT },
    )
}

/// A stability of one for each column.
pub fn infer_c_stability(value: &Value) -> (r: Result<Vec<Real>, Error>)
    ensures
        column_count(*value) is None <==> r is Err,
        r matches Err(e) ==> e.kind == ErrorKind::ShapeError,
        r matches Ok(s) ==> s@ == ones(column_count(*value).unwrap() as i64 as int),
{
    match infer_num_columns(value)? {
        Some(n) => {
            let mut r: Vec<Real> = Vec::new();
            let mut i: i64 = 0;
            while i < n
                invariant
                    0 <= i,
                    i <= n || n < 0,
                    n < 0 ==> i == 0,
                    r@ == ones(i as int),
                decreases n - i,
            {
                r.push(Real::one());
                i += 1;
                proof {
                    assert(r@ =~= ones(i as int));
                }
            }
            proof {
                assert(r@ =~= ones(n as int));
            }
            Ok(r)
        },
        None => Ok(Vec::new()),
    }
}

/// The base type of a dense array.
pub open spec fn type_of(a: ArrayND) -> DataType {
    match a {
        ArrayND::Bool(_) => DataType::Bool,
        ArrayND::F64(_) => DataType::F64,
        ArrayND::I64(_) => DataType::I64,
        ArrayND::Str(_) => DataType::Str,
    }
}

/// The number of rows of a dense array: one for rank 0, else the size of axis 0.
pub open spec fn row_count(a: ArrayND) -> int {
    if a.shape_view().len() == 0 {
        1
    } else {
        a.shape_view()[0] as int
    }
}

/// The properties of every part of `v` can be inferred: no dense array in
/// it has rank above two.
pub open spec fn property_ok(v: Value) -> bool
    decreases v,
{
    match v {
        Value::ArrayND(a) => a.shape_view().len() <= 2,
        Value::Vector2DJagged(_) => true,
        Value::Hashmap(Hashmap::Str(es)) => forall|i: int|
            0 <= i < es@.len() ==> property_ok(#[trigger] es@[i].1),
        Value::Hashmap(Hashmap::I64(es)) => forall|i: int|
            0 <= i < es@.len() ==> property_ok(#[trigger] es@[i].1),
        Value::Hashmap(Hashmap::Bool(es)) => forall|i: int|
            0 <= i < es@.len() ==> property_ok(#[trigger] es@[i].1),
    }
}

/// `p` describes the dense array `a` (the value `v`): nullable, releasable,
/// its nature, one stability of one per column, its column and row counts,
/// no aggregator, and its base type.
pub open spec fn array_described(v: Value, a: ArrayND, p: ArrayProperties) -> bool {
    &&& p.nullity
    &&& p.releasable
    &&& nature_describes(v, p.nature)
    &&& p.c_stability@ == ones(column_count(v).unwrap() as i64 as int)
    &&& p.num_columns == Some(column_count(v).unwrap() as i64)
    &&& p.num_records == Some(row_count(a) as i64)
    &&& p.aggregator is None
    &&& p.data_type == type_of(a)
}

/// `p` is what inference states of `v`; for a keyed map, key by key in the
/// map's order, with the record count unknown and no disjointness claimed.
pub open spec fn describes(v: Value, p: ValueProperties) -> bool
    decreases v,
{
    match v {
        Value::ArrayND(a) => p matches ValueProperties::ArrayND(ap) && array_described(v, a, ap),
        Value::Vector2DJagged(_) => p is Jagged,
        Value::Hashmap(h) => {
            &&& p matches ValueProperties::Hashmap(hp)
            &&& hp.num_records is None
            &&& !hp.disjoint
            &&& match (h, hp.value_properties) {
                (Hashmap::Str(es), KeyedProperties::Str(ps)) => {
                    &&& ps@.len() == es@.len()
                    &&& forall|i: int|
                        0 <= i < es@.len() ==> (#[trigger] ps@[i]).0@ == es@[i].0@ && describes(
                            es@[i].1,
                            ps@[i].1,
                        )
                },
                (Hashmap::I64(es), KeyedProperties::I64(ps)) => {
                    &&& ps@.len() == es@.len()
                    &&& forall|i: int|
                        0 <= i < es@.len() ==> (#[trigger] ps@[i]).0 == es@[i].0 && describes(
                            es@[i].1,
                            ps@[i].1,
                        )
                },
                (Hashmap::Bool(es), KeyedProperties::Bool(ps)) => {
                    &&& ps@.len() == es@.len()
                    &&& forall|i: int|
                        0 <= i < es@.len() ==> (#[trigger] ps@[i]).0 == es@[i].0 && describes(
                            es@[i].1,
                            ps@[i].1,
                        )
                },
                _ => false,
            }
        },
    }
}

/// The properties of a dense array.
fn array_property(value: &Value, array: &ArrayND) -> (r: Result<ArrayProperties, Error>)
    requires
        value_wf(*value),
        *value == Value::ArrayND(*array),
    ensures
        array.shape_view().len() > 2 <==> r is Err,
        r matches Err(e) ==> e.kind == ErrorKind::ShapeError,
        r matches Ok(p) ==> array_described(*value, *array, p),
{
    let nullity = infer_nullity(value)?;
    let nature = infer_nature(value)?;
    let c_stability = infer_c_stability(value)?;
    let num_columns = infer_num_columns(value)?;
    let num_records = infer_num_rows(array)?;
    let data_type = match array {
        ArrayND::Bool(_) => DataType::Bool,
        ArrayND::F64(_) => DataType::F64,
        ArrayND::I64(_) => DataType::I64,
        ArrayND::Str(_) => DataType::Str,
    };
    Ok(
        ArrayProperties {
            nullity,
            releasable: true,
            nature,
            c_stability,
            num_columns,
            num_records: Some(num_records),
            aggregator: None,
            data_type,
        },
    )
}

/// The properties of a public value: for a dense array its nullity, nature,
/// stability, column and row counts and base type; for jagged columns the
/// (empty) jagged properties; for a keyed map, the properties of each entry
/// under its key. Fails with a shape error where a dense array inside has
/// rank above two.
pub fn infer_property(value: &Value) -> (r: Result<ValueProperties, Error>)
    requires
        value_wf(*value),
    ensures
        !property_ok(*value) <==> r is Err,
        r matches Err(e) ==> e.kind == ErrorKind::ShapeError,
        r matches Ok(p) ==> describes(*value, p),
    decreases *value,
{
    match value {
        Value::ArrayND(array) => {
            let p = array_property(value, array)?;
            Ok(ValueProperties::ArrayND(p))
        },
        Value::Vector2DJagged(_) => Ok(ValueProperties::Jagged(JaggedProperties {  })),
        Value::Hashmap(Hashmap::Str(es)) => {
            let mut ps: Vec<(String, ValueProperties)> = Vec::new();
            let mut i: usize = 0;
            while i < es.len()
                invariant
                    i <= es@.len(),
                    value_wf(*value),
                    *value == Value::Hashmap(Hashmap::Str(*es)),
                    forall|k: int| 0 <= k < es@.len() ==> value_wf(#[trigger] es@[k].1),
                    ps@.len() == i,
                    forall|k: int| 0 <= k < i ==> property_ok(#[trigger] es@[k].1),
                    forall|k: int|
                        0 <= k < i ==> (#[trigger] ps@[k]).0@ == es@[k].0@ && describes(
                            es@[k].1,
                            ps@[k].1,
                        ),
                decreases es@.len() - i,
            {
                proof {
                    let h = value->Hashmap_0;
                    assert(decreases_to!(*value => h));
                    assert(decreases_to!(h => h->Str_0));
                    assert(h->Str_0 == *es);
                    assert(decreases_to!(*es => es@));
                    assert(decreases_to!(es@ => es@[i as int]));
                    assert(decreases_to!(es@[i as int] => es@[i as int].1));
                    assert(decreases_to!(*value => es@[i as int].1));
                }
                let p = match infer_property(&es[i].1) {
                    Ok(p) => p,
                    Err(e) => {
                        proof {
                            assert(!property_ok(es@[i as int].1));
                        }
                        return Err(e);
                    },
                };
                ps.push((es[i].0.clone(), p));
                i += 1;
            }
            Ok(
                ValueProperties::Hashmap(
                    HashmapProperties {
                        num_records: None,
                        disjoint: false,
                        value_properties: KeyedProperties::Str(ps),
                    },
                ),
            )
        },
        Value::Hashmap(Hashmap::I64(es)) => {
            let mut ps: Vec<(i64, ValueProperties)> = Vec::new();
            let mut i: usize = 0;
            while i < es.len()
                invariant
                    i <= es@.len(),
                    value_wf(*value),
                    *value == Value::Hashmap(Hashmap::I64(*es)),
                    forall|k: int| 0 <= k < es@.len() ==> value_wf(#[trigger] es@[k].1),
                    ps@.len() == i,
                    forall|k: int| 0 <= k < i ==> property_ok(#[trigger] es@[k].1),
                    forall|k: int|
                        0 <= k < i ==> (#[trigger] ps@[k]).0 == es@[k].0 && describes(
                            es@[k].1,
                            ps@[k].1,
                        ),
                decreases es@.len() - i,
            {
                proof {
                    let h = value->Hashmap_0;
                    assert(decreases_to!(*value => h));
                    assert(decreases_to!(h => h->I64_0));
                    assert(h->I64_0 == *es);
                    assert(decreases_to!(*es => es@));
                    assert(decreases_to!(es@ => es@[i as int]));
                    assert(decreases_to!(es@[i as int] => es@[i as int].1));
                    assert(decreases_to!(*value => es@[i as int].1));
                }
                let p = match infer_property(&es[i].1) {
                    Ok(p) => p,
                    Err(e) => {
                        proof {
                            assert(!property_ok(es@[i as int].1));
                        }
                        return Err(e);
                    },
                };
                ps.push((es[i].0, p));
                i += 1;
            }
            Ok(
                ValueProperties::Hashmap(
                    HashmapProperties {
                        num_records: None,
                        disjoint: false,
                        value_properties: KeyedProperties::I64(ps),
                    },
                ),
            )
        },
        Value::Hashmap(Hashmap::Bool(es)) => {
            let mut ps: Vec<(bool, ValueProperties)> = Vec::new();
            let mut i: usize = 0;
            while i < es.len()
                invariant
                    i <= es@.len(),
                    value_wf(*value),
                    *value == Value::Hashmap(Hashmap::Bool(*es)),
                    forall|k: int| 0 <= k < es@.len() ==> value_wf(#[trigger] es@[k].1),
                    ps@.len() == i,
                    forall|k: int| 0 <= k < i ==> property_ok(#[trigger] es@[k].1),
                    forall|k: int|
                        0 <= k < i ==> (#[trigger] ps@[k]).0 == es@[k].0 && describes(
                            es@[k].1,
                            ps@[k].1,
                        ),
                decreases es@.len() - i,
            {
                proof {
                    let h = value->Hashmap_0;
                    assert(decreases_to!(*value => h));
                    assert(decreases_to!(h => h->Bool_0));
                    assert(h->Bool_0 == *es);
                    assert(decreases_to!(*es => es@));
                    assert(decreases_to!(es@ => es@[i as int]));
                    assert(decreases_to!(es@[i as int] => es@[i as int].1));
                    assert(decreases_to!(*value => es@[i as int].1));
                }
                let p = match infer_property(&es[i].1) {
                    Ok(p) => p,
                    Err(e) => {
                        proof {
                            assert(!property_ok(es@[i as int].1));
                        }
                        return Err(e);
                    },
                };
                ps.push((es[i].0, p));
                i += 1;
            }
            Ok(
                ValueProperties::Hashmap(
                    HashmapProperties {
                        num_records: None,
                        disjoint: false,
                        value_properties: KeyedProperties::Bool(ps),
                    },
                ),
            )
        },
    }
}

} // verus!
