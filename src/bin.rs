use vstd::prelude::*;
use crate::args::{find_argument, lookup};
use crate::error::{Error, ErrorKind};
use crate::fixed::{Edge, Real};
use crate::properties::{
    copy_name, copy_reals, ArrayProperties, DataType, Nature, NatureCategorical, ValueProperties,
};
use crate::value::{ArrayND, DenseArray, Value, Vector2DJagged};

verus! {

/// Which value labels a bin: its lower edge, its midpoint or its upper edge.
#[derive(Clone, Copy, Debug, PartialEq, Eq, Structural)]
pub enum BinSide {
    Left,
    Center,
    Right,
}

/// The side that a parameter text names.
pub open spec fn side_from(s: Seq<char>) -> Option<BinSide> {
    if s == "left"@ {
        Some(BinSide::Left)
    } else if s == "center"@ {
        Some(BinSide::Center)
    } else if s == "right"@ {
        Some(BinSide::Right)
    } else {
        None
    }
}

/// The labels of the bins of one column with edges `col`.
pub open spec fn side_categories<T: Edge>(side: BinSide, col: Seq<T>) -> Seq<T> {
    match side {
        BinSide::Left => if col.len() == 0 {
            col
        } else {
            col.drop_last()
        },
        BinSide::Center => Seq::new(
            if col.len() == 0 {
                0
            } else {
                (col.len() - 1) as nat
            },
            |i: int| T::spec_midpoint(col[i], col[i + 1]),
        ),
        BinSide::Right => if col.len() == 0 {
            col
        } else {
            col.drop_first()
        },
    }
}

/// The side named by `side`, or an invalid-argument error.
pub fn parse_side(side: &String) -> (r: Result<BinSide, Error>)
    ensures
        side_from(side@) matches Some(s) ==> r == Ok::<BinSide, Error>(s),
        side_from(side@) is None ==> r is Err && r->Err_0.kind == ErrorKind::InvalidArgument,
{
    proof {
        reveal_strlit("left");
        reveal_strlit("center");
        reveal_strlit("right");
    }
    let left = "left".to_owned();
    let center = "center".to_owned();
    let right = "right".to_owned();
    if *side == left {
        Ok(BinSide::Left)
    } else if *side == center {
        Ok(BinSide::Center)
    } else if *side == right {
        Ok(BinSide::Right)
    } else {
        Err(Error::new(ErrorKind::InvalidArgument, "side: must be left, center or right"))
    }
}

/// The bin labels of one column.
pub fn column_categories<T: Edge>(side: BinSide, col: &Vec<T>) -> (r: Vec<T>)
    ensures
        r@ == side_categories(side, col@),
{
    let mut r: Vec<T> = Vec::new();
    match side {
        BinSide::Left => {
            let mut i: usize = 0;
            let end: usize = if col.len() == 0 { 0 } else { col.len() - 1 };
            while i < end
                invariant
                    end == side_categories(side, col@).len(),
                    i <= end,
                    end <= col@.len(),
                    r@ == col@.take(i as int),
                decreases end - i,
            {
                r.push(col[i]);
                i += 1;
                proof {
                    assert(r@ =~= col@.take(i as int));
                }
            }
            proof {
                assert(r@ =~= side_categories(side, col@));
            }
        },
        BinSide::Center => {
            let mut i: usize = 1;
            while i < col.len()
                invariant
                    1 <= i,
                    col@.len() >= 1 ==> i <= col@.len(),
                    col@.len() == 0 ==> i == 1,
                    r@.len() == i - 1,
                    forall|k: int|
                        0 <= k < r@.len() ==> r@[k] == T::spec_midpoint(col@[k], col@[k + 1]),
                decreases col@.len() - i,
            {
                r.push(T::midpoint(col[i - 1], col[i]));
                i += 1;
            }
            proof {
                assert(r@ =~= side_categories(side, col@));
            }
        },
        BinSide::Right => {
            let mut i: usize = 1;
            while i < col.len()
                invariant
                    1 <= i,
                    i <= col@.len() || col@.len() == 0,
                    r@ == col@.subrange(1, i as int) || col@.len() == 0,
                    col@.len() == 0 ==> r@.len() == 0,
                decreases col@.len() - i,
            {
                r.push(col[i]);
                i += 1;
                proof {
                    assert(r@ =~= col@.subrange(1, i as int));
                }
            }
            proof {
                assert(r@ =~= side_categories(side, col@));
            }
        },
    }
    r
}

/// The bin labels of each column of `edges`, by `side`: each column's edges
/// without the last (`left`), the midpoints of neighbouring edges (`center`),
/// or the edges without the first (`right`). Any other side is refused.
pub fn nature_from_edges<T: Edge>(side: &String, edges: &Vec<Vec<T>>) -> (r: Result<
    Vec<Vec<T>>,
    Error,
>)
    ensures
        side_from(side@) is None <==> r is Err,
        r matches Err(e) ==> e.kind == ErrorKind::InvalidArgument,
        r matches Ok(v) ==> v@.len() == edges@.len() && forall|c: int|
            0 <= c < edges@.len() ==> #[trigger] v@[c]@ == side_categories(
                side_from(side@).unwrap(),
                edges@[c]@,
            ),
{
    let s = parse_side(side)?;
    let mut r: Vec<Vec<T>> = Vec::new();
    let mut c: usize = 0;
    while c < edges.len()
        invariant
            c <= edges@.len(),
            side_from(side@) == Some(s),
            r@.len() == c,
            forall|k: int|
                0 <= k < c ==> #[trigger] r@[k]@ == side_categories(s, edges@[k]@),
        decreases edges@.len() - c,
    {
        r.push(column_categories(s, &edges[c]));
        c += 1;
    }
    Ok(r)
}

/// The privacy definition handed to every propagation rule, opaque to this
/// library; the binning rule does not read it.
#[derive(Clone, Copy, Debug, PartialEq, Eq, Structural)]
pub struct PrivacyDefinition {}

/// The binning operator: it maps continuous data to categorical bins.
#[derive(Clone, Debug)]
pub struct Bin {
    /// `left`, `center` or `right`: which value labels a bin.
    pub side: String,
}

/// Every column of `cols` is present.
pub open spec fn all_present<T>(cols: Seq<Option<Vec<T>>>) -> bool {
    forall|c: int| 0 <= c < cols.len() ==> #[trigger] cols[c] is Some
}

/// A per-column argument of `len` entries can stand for `n` columns:
/// one entry is shared by all columns, or there is one entry per column.
pub open spec fn fits_columns(len: int, n: int) -> bool {
    len == 1 || len == n
}

/// The edges fit `n` columns: their count fits and none is absent.
pub open spec fn edges_fit(e: Vector2DJagged, n: int) -> bool {
    match e {
        Vector2DJagged::Bool(v) => fits_columns(v@.len() as int, n) && all_present(v@),
        Vector2DJagged::F64(v) => fits_columns(v@.len() as int, n) && all_present(v@),
        Vector2DJagged::I64(v) => fits_columns(v@.len() as int, n) && all_present(v@),
        Vector2DJagged::Str(v) => fits_columns(v@.len() as int, n) && all_present(v@),
    }
}

/// Edges and null sentinels share one numeric base type.
pub open spec fn numeric_pair(e: Vector2DJagged, nl: ArrayND) -> bool {
    ||| e is F64 && nl is F64
    ||| e is I64 && nl is I64
}

/// The edges of column `c` after broadcasting.
pub open spec fn edge_column<T>(edges: Seq<Option<Vec<T>>>, c: int) -> Seq<T> {
    if edges.len() == 1 {
        edges[0].unwrap()@
    } else {
        edges[c].unwrap()@
    }
}

/// The null sentinel of column `c` after broadcasting.
pub open spec fn null_at<T>(nulls: Seq<T>, c: int) -> T {
    if nulls.len() == 1 {
        nulls[0]
    } else {
        nulls[c]
    }
}

/// `r` holds, for each of `n` columns, the bin labels of its edges by `side`
/// followed by its null sentinel.
pub open spec fn binned_columns<T: Edge>(
    r: Seq<Option<Vec<T>>>,
    side: BinSide,
    edges: Seq<Option<Vec<T>>>,
    nulls: Seq<T>,
    n: int,
) -> bool {
    &&& r.len() == n
    &&& forall|c: int|
        0 <= c < n ==> (#[trigger] r[c]) is Some && r[c].unwrap()@ == side_categories(
            side,
            edge_column(edges, c),
        ).push(null_at(nulls, c))
}

/// The failure, if any, of binning under `side` with public arguments `args`
/// and input properties `props`, checked in this order: the data, its column
/// count, the presence of `null` and `edges`, their shape families, their
/// column counts, their base types, and the side.
pub open spec fn bin_failure(
    side: Seq<char>,
    args: Seq<(String, Value)>,
    props: Seq<(String, ValueProperties)>,
) -> Option<ErrorKind> {
    match lookup(props, "data"@) {
        None => Some(ErrorKind::MissingArgument),
        Some(ValueProperties::ArrayND(dp)) => {
            if !dp.has_known_columns() || dp.num_columns.unwrap() > usize::MAX {
                Some(ErrorKind::ShapeError)
            } else {
                let n = dp.num_columns.unwrap() as int;
                match (lookup(args, "null"@), lookup(args, "edges"@)) {
                    (Some(Value::ArrayND(nl)), Some(Value::Vector2DJagged(e))) => {
                        if !fits_columns(nl.num_cells(), n) || !edges_fit(e, n) {
                            Some(ErrorKind::ShapeError)
                        } else if !numeric_pair(e, nl) {
                            Some(ErrorKind::TypeError)
                        } else if side_from(side) is None {
                            Some(ErrorKind::InvalidArgument)
                        } else {
                            None
                        }
                    },
                    (None, _) => Some(ErrorKind::MissingArgument),
                    (_, None) => Some(ErrorKind::MissingArgument),
                    _ => Some(ErrorKind::TypeError),
                }
            }
        },
        Some(_) => Some(ErrorKind::TypeError),
    }
}

/// `op` keeps every field of `dp` but the nature and the data type.
pub open spec fn keeps_other_fields(op: ArrayProperties, dp: ArrayProperties) -> bool {
    &&& op.nullity == dp.nullity
    &&& op.releasable == dp.releasable
    &&& op.c_stability@ == dp.c_stability@
    &&& op.num_columns == dp.num_columns
    &&& op.num_records == dp.num_records
    &&& op.aggregator == dp.aggregator
}

/// What binning yields where it does not fail: the data's properties, now of
/// floating type, with one category list per column (the bin labels of the
/// broadcast edges by `side`, then the column's null sentinel).
pub open spec fn bin_output(
    out: ValueProperties,
    side: Seq<char>,
    args: Seq<(String, Value)>,
    props: Seq<(String, ValueProperties)>,
) -> bool {
    &&& lookup(props, "data"@) matches Some(ValueProperties::ArrayND(dp))
    &&& lookup(args, "null"@) matches Some(Value::ArrayND(nl))
    &&& lookup(args, "edges"@) matches Some(Value::Vector2DJagged(e))
    &&& out matches ValueProperties::ArrayND(op)
    &&& keeps_other_fields(op, dp)
    &&& op.data_type == DataType::F64
    &&& op.nature matches Some(Nature::Categorical(nc))
    &&& match (e, nl, nc.categories) {
        (Vector2DJagged::F64(ev), ArrayND::F64(na), Vector2DJagged::F64(cats)) => binned_columns(
            cats@,
            side_from(side).unwrap(),
            ev@,
            na.data@,
            dp.num_columns.unwrap() as int,
        ),
        (Vector2DJagged::I64(ev), ArrayND::I64(na), Vector2DJagged::I64(cats)) => binned_columns(
            cats@,
            side_from(side).unwrap(),
            ev@,
            na.data@,
            dp.num_columns.unwrap() as int,
        ),
        _ => false,
    }
}

/// Whether every column of `cols` is present.
pub fn columns_present<T>(cols: &Vec<Option<Vec<T>>>) -> (r: bool)
    ensures
        r == all_present(cols@),
{
    let mut c: usize = 0;
    while c < cols.len()
        invariant
            c <= cols@.len(),
            forall|k: int| 0 <= k < c ==> #[trigger] cols@[k] is Some,
        decreases cols@.len() - c,
    {
        if cols[c].is_none() {
            return false;
        }
        c += 1;
    }
    true
}

/// Whether the edges fit `n` columns.
pub fn edges_fit_columns(e: &Vector2DJagged, n: usize) -> (r: bool)
    ensures
        r == edges_fit(*e, n as int),
{
    match e {
        Vector2DJagged::Bool(v) => (v.len() == 1 || v.len() == n) && columns_present(v),
        Vector2DJagged::F64(v) => (v.len() == 1 || v.len() == n) && columns_present(v),
        Vector2DJagged::I64(v) => (v.len() == 1 || v.len() == n) && columns_present(v),
        Vector2DJagged::Str(v) => (v.len() == 1 || v.len() == n) && columns_present(v),
    }
}

/// The number of elements of a dense array.
pub fn num_cells(a: &ArrayND) -> (r: usize)
    ensures
        r == a.num_cells(),
{
    match a {
        ArrayND::Bool(x) => x.data.len(),
        ArrayND::F64(x) => x.data.len(),
        ArrayND::I64(x) => x.data.len(),
        ArrayND::Str(x) => x.data.len(),
    }
}

/// For each of `n` columns, its bin labels by `side` followed by its null
/// sentinel, with shared edges or sentinels broadcast to every column.
pub fn bin_columns<T: Edge>(side: BinSide, edges: &Vec<Option<Vec<T>>>, nulls: &Vec<T>, n: usize) -> (r:
    Vec<Option<Vec<T>>>)
    requires
        fits_columns(edges@.len() as int, n as int),
        all_present(edges@),
        fits_columns(nulls@.len() as int, n as int),
    ensures
        binned_columns(r@, side, edges@, nulls@, n as int),
{
    let mut r: Vec<Option<Vec<T>>> = Vec::new();
    let mut c: usize = 0;
    while c < n
        invariant
            c <= n,
            fits_columns(edges@.len() as int, n as int),
            all_present(edges@),
            fits_columns(nulls@.len() as int, n as int),
            r@.len() == c,
            forall|k: int|
                0 <= k < c ==> (#[trigger] r@[k]) is Some && r@[k].unwrap()@ == side_categories(
                    side,
                    edge_column(edges@, k),
                ).push(null_at(nulls@, k)),
        decreases n - c,
    {
        let i: usize = if edges.len() == 1 { 0 } else { c };
        let j: usize = if nulls.len() == 1 { 0 } else { c };
        assert(edges@[i as int] is Some);
        match &edges[i] {
            Some(col) => {
                let mut cats = column_categories(side, col);
                cats.push(nulls[j]);
                r.push(Some(cats));
            },
            None => {
                r.push(None);
            },
        }
        c += 1;
    }
    r
}

impl Bin {
    /// The properties of the binned data: those of `data`, with a categorical
    /// nature built from the public `edges` and `null` and a floating data
    /// type. Fails as `bin_failure` says, with the offending argument's name
    /// in the error's context.
    pub fn propagate_property(
        &self,
        _privacy_definition: &PrivacyDefinition,
        public_arguments: &Vec<(String, Value)>,
        properties: &Vec<(String, ValueProperties)>,
    ) -> (r: Result<ValueProperties, Error>)
        ensures
            r is Err <==> bin_failure(self.side@, public_arguments@, properties@) is Some,
            r matches Err(e) ==> e.kind == bin_failure(
                self.side@,
                public_arguments@,
                properties@,
            ).unwrap(),
            r matches Ok(out) ==> bin_output(out, self.side@, public_arguments@, properties@),
    {
        let di = match find_argument(properties, "data") {
            Some(i) => i,
            None => {
                return Err(Error::new(ErrorKind::MissingArgument, "missing").with_context("data"));
            },
        };
        let dp = match properties[di].1.get_arraynd() {
            Ok(p) => p,
            Err(e) => {
                return Err(e.with_context("data"));
            },
        };
        let n64 = match dp.get_num_columns() {
            Ok(n) => n,
            Err(e) => {
                return Err(e.with_context("data"));
            },
        };
        if n64 as u64 > usize::MAX as u64 {
            return Err(
                Error::new(ErrorKind::ShapeError, "too many columns").with_context("data"),
            );
        }
        let n = n64 as usize;
        let ni = match find_argument(public_arguments, "null") {
            Some(i) => i,
            None => {
                return Err(
                    Error::new(ErrorKind::MissingArgument, "missing, must be public").with_context(
                        "null",
                    ),
                );
            },
        };
        let ei = match find_argument(public_arguments, "edges") {
            Some(i) => i,
            None => {
                return Err(
                    Error::new(ErrorKind::MissingArgument, "missing, must be public").with_context(
                        "edges",
                    ),
                );
            },
        };
        let nl = match public_arguments[ni].1.get_arraynd() {
            Ok(a) => a,
            Err(e) => {
                return Err(e.with_context("null"));
            },
        };
        let ev = match public_arguments[ei].1.get_jagged() {
            Ok(j) => j,
            Err(e) => {
                return Err(e.with_context("edges"));
            },
        };
        let cells = num_cells(nl);
        if !(cells == 1 || cells == n) {
            return Err(
                Error::new(ErrorKind::ShapeError, "must hold one value or one per column")
                    .with_context("null"),
            );
        }
        if !edges_fit_columns(ev, n) {
            return Err(
                Error::new(ErrorKind::ShapeError, "must hold one column or one per column")
                    .with_context("edges"),
            );
        }
        let numeric = match (ev, nl) {
            (Vector2DJagged::F64(_), ArrayND::F64(_)) => true,
            (Vector2DJagged::I64(_), ArrayND::I64(_)) => true,
            _ => false,
        };
        if !numeric {
            return Err(Error::new(ErrorKind::TypeError, "must be numeric").with_context("edges"));
        }
        let side = match parse_side(&self.side) {
            Ok(s) => s,
            Err(e) => {
                return Err(e.with_context("side"));
            },
        };
        let categories = match (ev, nl) {
            (Vector2DJagged::F64(e), ArrayND::F64(a)) => Vector2DJagged::F64(
                bin_columns(side, e, &a.data, n),
            ),
            (Vector2DJagged::I64(e), ArrayND::I64(a)) => Vector2DJagged::I64(
                bin_columns(side, e, &a.data, n),
            ),
            _ => {
                return Err(
                    Error::new(ErrorKind::TypeError, "must be numeric").with_context("edges"),
                );
            },
        };
        let out = ArrayProperties {
            nullity: dp.nullity,
            releasable: dp.releasable,
            nature: Some(Nature::Categorical(NatureCategorical { categories })),
            c_stability: copy_reals(&dp.c_stability),
            num_columns: dp.num_columns,
            num_records: dp.num_records,
            aggregator: copy_name(&dp.aggregator),
            data_type: DataType::F64,
        };
        Ok(ValueProperties::ArrayND(out))
    }

    /// The names of the output's columns: not supported by this operator.
    pub fn get_names(&self, _properties: &Vec<(String, ValueProperties)>) -> (r: Result<
        Vec<String>,
        Error,
    >)
        ensures
            r matches Err(e) && e.kind == ErrorKind::NotImplemented,
    {
        Err(Error::new(ErrorKind::NotImplemented, "get_names not implemented"))
    }
}

} // verus!
