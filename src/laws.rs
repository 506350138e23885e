//! Laws that relate the inference and propagation functions.
use vstd::prelude::*;
use crate::args::lookup;
use crate::bin::{
    bin_failure, bin_output, edges_fit, fits_columns, null_at, side_categories, side_from,
};
use crate::bounds::{lemma_int_bounds_ordered, lemma_real_bounds_ordered};
use crate::error::ErrorKind;
use crate::fixed::lemma_real_of_int_monotone;
use crate::inference::{bounds_failure, bounds_of, column_count, describes, value_wf};
use crate::properties::{ArrayProperties, KeyedProperties, Nature, ValueProperties};
use crate::value::{ArrayND, Hashmap, Value, Vector2DJagged};

verus! {

broadcast use vstd::std_specs::vec::axiom_vec_index_decreases;

/// The two column lists hold the same columns.
pub open spec fn same_lists<T>(a: Seq<Option<Vec<T>>>, b: Seq<Option<Vec<T>>>) -> bool {
    &&& a.len() == b.len()
    &&& forall|c: int|
        0 <= c < a.len() ==> ((#[trigger] a[c]) is Some <==> b[c] is Some) && (a[c] is Some
            ==> a[c].unwrap()@ == b[c].unwrap()@)
}

/// The two jagged values are of one base type and hold the same columns.
pub open spec fn same_jagged(a: Vector2DJagged, b: Vector2DJagged) -> bool {
    match (a, b) {
        (Vector2DJagged::Bool(x), Vector2DJagged::Bool(y)) => same_lists(x@, y@),
        (Vector2DJagged::F64(x), Vector2DJagged::F64(y)) => same_lists(x@, y@),
        (Vector2DJagged::I64(x), Vector2DJagged::I64(y)) => same_lists(x@, y@),
        (Vector2DJagged::Str(x), Vector2DJagged::Str(y)) => same_lists(x@, y@),
        _ => false,
    }
}

/// The two natures state the same.
pub open spec fn same_nature(a: Option<Nature>, b: Option<Nature>) -> bool {
    match (a, b) {
        (None, None) => true,
        (Some(Nature::Continuous(x)), Some(Nature::Continuous(y))) => x.min@ == y.min@ && x.max@
            == y.max@,
        (Some(Nature::Categorical(x)), Some(Nature::Categorical(y))) => same_jagged(
            x.categories,
            y.categories,
        ),
        _ => false,
    }
}

/// The two array properties state the same, field by field.
pub open spec fn same_array_properties(a: ArrayProperties, b: ArrayProperties) -> bool {
    &&& a.nullity == b.nullity
    &&& a.releasable == b.releasable
    &&& same_nature(a.nature, b.nature)
    &&& a.c_stability@ == b.c_stability@
    &&& a.num_columns == b.num_columns
    &&& a.num_records == b.num_records
    &&& a.aggregator == b.aggregator
    &&& a.data_type == b.data_type
}

/// The two properties are structurally identical.
pub open spec fn same_properties(p: ValueProperties, q: ValueProperties) -> bool
    decreases p,
{
    match (p, q) {
        (ValueProperties::ArrayND(a), ValueProperties::ArrayND(b)) => same_array_properties(a, b),
        (ValueProperties::Jagged(_), ValueProperties::Jagged(_)) => true,
        (ValueProperties::Hashmap(a), ValueProperties::Hashmap(b)) => {
            &&& a.num_records == b.num_records
            &&& a.disjoint == b.disjoint
            &&& match (a.value_properties, b.value_properties) {
                (KeyedProperties::Str(x), KeyedProperties::Str(y)) => {
                    &&& x@.len() == y@.len()
                    &&& forall|i: int|
                        0 <= i < x@.len() ==> (#[trigger] x@[i]).0@ == y@[i].0@ && same_properties(
                            x@[i].1,
                            y@[i].1,
                        )
                },
                (KeyedProperties::I64(x), KeyedProperties::I64(y)) => {
                    &&& x@.len() == y@.len()
                    &&& forall|i: int|
                        0 <= i < x@.len() ==> (#[trigger] x@[i]).0 == y@[i].0 && same_properties(
                            x@[i].1,
                            y@[i].1,
                        )
                },
                (KeyedProperties::Bool(x), KeyedProperties::Bool(y)) => {
                    &&& x@.len() == y@.len()
                    &&& forall|i: int|
                        0 <= i < x@.len() ==> (#[trigger] x@[i]).0 == y@[i].0 && same_properties(
                            x@[i].1,
                            y@[i].1,
                        )
                },
                _ => false,
            }
        },
        _ => false,
    }
}

/// Inference is idempotent: any two results that `infer_property` may give
/// for the same value are structurally identical.
pub proof fn lemma_inference_idempotent(v: Value, p: ValueProperties, q: ValueProperties)
    requires
        describes(v, p),
        describes(v, q),
    ensures
        same_properties(p, q),
    decreases v,
{
    match v {
        Value::ArrayND(_) => {
            let a = p->ArrayND_0;
            let b = q->ArrayND_0;
            match (a.nature, b.nature) {
                (Some(Nature::Categorical(x)), Some(Nature::Categorical(y))) => {
                    assert(same_jagged(x.categories, y.categories));
                },
                _ => {},
            }
        },
        Value::Vector2DJagged(_) => {},
        Value::Hashmap(h) => {
            let a = p->Hashmap_0;
            let b = q->Hashmap_0;
            match h {
                Hashmap::Str(es) => {
                    let x = a.value_properties->Str_0;
                    let y = b.value_properties->Str_0;
                    assert forall|i: int| 0 <= i < x@.len() implies (#[trigger] x@[i]).0@
                        == y@[i].0@ && same_properties(x@[i].1, y@[i].1) by {
                        assert(decreases_to!(v => h));
                        assert(decreases_to!(h => h->Str_0));
                        assert(decreases_to!(es => es@));
                        assert(decreases_to!(es@ => es@[i]));
                        assert(decreases_to!(es@[i] => es@[i].1));
                        lemma_inference_idempotent(es@[i].1, x@[i].1, y@[i].1);
                    }
                },
                Hashmap::I64(es) => {
                    let x = a.value_properties->I64_0;
                    let y = b.value_properties->I64_0;
                    assert forall|i: int| 0 <= i < x@.len() implies (#[trigger] x@[i]).0 == y@[i].0
                        && same_properties(x@[i].1, y@[i].1) by {
                        assert(decreases_to!(v => h));
                        assert(decreases_to!(h => h->I64_0));
                        assert(decreases_to!(es => es@));
                        assert(decreases_to!(es@ => es@[i]));
                        assert(decreases_to!(es@[i] => es@[i].1));
                        lemma_inference_idempotent(es@[i].1, x@[i].1, y@[i].1);
                    }
                },
                Hashmap::Bool(es) => {
                    let x = a.value_properties->Bool_0;
                    let y = b.value_properties->Bool_0;
                    assert forall|i: int| 0 <= i < x@.len() implies (#[trigger] x@[i]).0 == y@[i].0
                        && same_properties(x@[i].1, y@[i].1) by {
                        assert(decreases_to!(v => h));
                        assert(decreases_to!(h => h->Bool_0));
                        assert(decreases_to!(es => es@));
                        assert(decreases_to!(es@ => es@[i]));
                        assert(decreases_to!(es@[i] => es@[i].1));
                        lemma_inference_idempotent(es@[i].1, x@[i].1, y@[i].1);
                    }
                },
            }
        },
    }
}

/// Column-count consistency: wherever numeric bounds can be inferred, the
/// lists of smallest and of largest elements both have one entry per column.
pub proof fn lemma_bounds_match_columns(v: Value)
    requires
        value_wf(v),
        bounds_failure(v) is None,
    ensures
        bounds_of(v, false).len() == column_count(v).unwrap(),
        bounds_of(v, true).len() == column_count(v).unwrap(),
{
}

/// Min is at most max: in each column where both bounds are known, the
/// inferred smallest element lies at or below the inferred largest.
pub proof fn lemma_min_le_max(v: Value, c: int)
    requires
        value_wf(v),
        bounds_failure(v) is None,
        0 <= c < bounds_of(v, false).len(),
        c < bounds_of(v, true).len(),
        bounds_of(v, false)[c] is Some,
        bounds_of(v, true)[c] is Some,
    ensures
        bounds_of(v, false)[c].unwrap().ticks <= bounds_of(v, true)[c].unwrap().ticks,
{
    match v {
        Value::ArrayND(ArrayND::F64(x)) => {
            if x.rank() <= 1 {
                lemma_real_bounds_ordered(x.data@);
            }
        },
        Value::ArrayND(ArrayND::I64(x)) => {
            if x.rank() <= 1 {
                lemma_int_bounds_ordered(x.data@);
                lemma_real_of_int_monotone(
                    crate::bounds::int_bound(x.data@, false).unwrap() as int,
                    crate::bounds::int_bound(x.data@, true).unwrap() as int,
                );
            }
        },
        Value::Vector2DJagged(Vector2DJagged::F64(j)) => {
            lemma_real_bounds_ordered(j@[c].unwrap()@);
        },
        Value::Vector2DJagged(Vector2DJagged::I64(j)) => {
            let col = j@[c].unwrap()@;
            lemma_int_bounds_ordered(col);
            lemma_real_of_int_monotone(
                crate::bounds::int_bound(col, false).unwrap() as int,
                crate::bounds::int_bound(col, true).unwrap() as int,
            );
        },
        _ => {},
    }
}

/// Type mismatch rejection: where everything before the type check passes,
/// integer edges with floating null sentinels, or floating edges with integer
/// ones, fail with a type error rather than being converted.
pub proof fn lemma_mixed_types_rejected(
    side: Seq<char>,
    args: Seq<(String, Value)>,
    props: Seq<(String, ValueProperties)>,
)
    requires
        ({
            &&& lookup(props, "data"@) matches Some(ValueProperties::ArrayND(dp))
            &&& dp.has_known_columns()
            &&& dp.num_columns.unwrap() <= usize::MAX
            &&& lookup(args, "null"@) matches Some(Value::ArrayND(nl))
            &&& lookup(args, "edges"@) matches Some(Value::Vector2DJagged(e))
            &&& fits_columns(nl.num_cells(), dp.num_columns.unwrap() as int)
            &&& edges_fit(e, dp.num_columns.unwrap() as int)
            &&& (e is I64 && nl is F64) || (e is F64 && nl is I64)
        }),
    ensures
        bin_failure(side, args, props) == Some(ErrorKind::TypeError),
{
}

/// Broadcast standardization, refusal: where everything before the column
/// checks passes and the null sentinels fit, edges given for neither one
/// column nor each column fail with a shape error.
pub proof fn lemma_edge_count_mismatch(
    side: Seq<char>,
    args: Seq<(String, Value)>,
    props: Seq<(String, ValueProperties)>,
)
    requires
        ({
            &&& lookup(props, "data"@) matches Some(ValueProperties::ArrayND(dp))
            &&& dp.has_known_columns()
            &&& dp.num_columns.unwrap() <= usize::MAX
            &&& lookup(args, "null"@) matches Some(Value::ArrayND(nl))
            &&& lookup(args, "edges"@) matches Some(Value::Vector2DJagged(e))
            &&& !fits_columns(e.spec_len(), dp.num_columns.unwrap() as int)
        }),
    ensures
        bin_failure(side, args, props) == Some(ErrorKind::ShapeError),
{
}

/// Broadcast standardization, replication: where one edge list is given,
/// every column of the result holds its bin labels, then that column's null
/// sentinel.
pub proof fn lemma_shared_edges_broadcast(
    out: ValueProperties,
    side: Seq<char>,
    args: Seq<(String, Value)>,
    props: Seq<(String, ValueProperties)>,
    c: int,
)
    requires
        bin_output(out, side, args, props),
        lookup(args, "edges"@) matches Some(Value::Vector2DJagged(e)) && e.spec_len() == 1,
        0 <= c < lookup(props, "data"@)->Some_0->ArrayND_0.num_columns.unwrap(),
    ensures
        match (
            lookup(args, "edges"@)->Some_0->Vector2DJagged_0,
            lookup(args, "null"@)->Some_0->ArrayND_0,
            out->ArrayND_0.nature->Some_0->Categorical_0.categories,
        ) {
            (Vector2DJagged::F64(ev), ArrayND::F64(na), Vector2DJagged::F64(cats)) => cats@[c].unwrap()@
                == side_categories(side_from(side).unwrap(), ev@[0].unwrap()@).push(
                null_at(na.data@, c),
            ),
            (Vector2DJagged::I64(ev), ArrayND::I64(na), Vector2DJagged::I64(cats)) => cats@[c].unwrap()@
                == side_categories(side_from(side).unwrap(), ev@[0].unwrap()@).push(
                null_at(na.data@, c),
            ),
            _ => false,
        },
{
}

} // verus!
