use vstd::prelude::*;
use crate::error::{Error, ErrorKind};
use crate::fixed::Real;
use crate::value::Vector2DJagged;

verus! {

/// The base type of an array's elements.
#[derive(Clone, Copy, Debug, PartialEq, Eq, Structural)]
pub enum DataType {
    Bool,
    F64,
    I64,
    Str,
}

/// Known bounds of each column; `None` where a bound is unknown.
#[derive(Clone, Debug)]
pub struct NatureContinuous {
    pub min: Vec<Option<Real>>,
    pub max: Vec<Option<Real>>,
}

/// Known categories of each column; `None` where they are unknown.
#[derive(Clone, Debug)]
pub struct NatureCategorical {
    pub categories: Vector2DJagged,
}

/// The statistical character of a set of columns.
#[derive(Clone, Debug)]
pub enum Nature {
    Continuous(NatureContinuous),
    Categorical(NatureCategorical),
}

/// What is statically known of a dense array.
#[derive(Clone, Debug)]
pub struct ArrayProperties {
    pub nullity: bool,
    pub releasable: bool,
    pub nature: Option<Nature>,
    /// One bound per column on how far one record moves that column.
    pub c_stability: Vec<Real>,
    pub num_columns: Option<i64>,
    pub num_records: Option<i64>,
    /// The component that produced the value by aggregation, if any.
    pub aggregator: Option<String>,
    pub data_type: DataType,
}

/// What is statically known of jagged columns: nothing is tracked per column yet.
#[derive(Clone, Copy, Debug, PartialEq, Eq, Structural)]
pub struct JaggedProperties {}

/// The properties of each partition of a keyed map, under its key.
#[derive(Debug)]
pub enum KeyedProperties {
    Str(Vec<(String, ValueProperties)>),
    I64(Vec<(i64, ValueProperties)>),
    Bool(Vec<(bool, ValueProperties)>),
}

/// What is statically known of a keyed map.
#[derive(Debug)]
pub struct HashmapProperties {
    pub num_records: Option<i64>,
    /// Whether the partitions are known not to overlap.
    pub disjoint: bool,
    pub value_properties: KeyedProperties,
}

/// What is statically known of a value, by the value's shape family.
#[derive(Debug)]
pub enum ValueProperties {
    ArrayND(ArrayProperties),
    Hashmap(HashmapProperties),
    Jagged(JaggedProperties),
}

impl ArrayProperties {
    /// The column count is known (and not negative).
    pub open spec fn has_known_columns(&self) -> bool {
        self.num_columns matches Some(n) && n >= 0
    }

    /// The number of columns, or a shape error where it is unknown.
    pub fn get_num_columns(&self) -> (r: Result<i64, Error>)
        ensures
            self.has_known_columns() ==> r == Ok::<i64, Error>(self.num_columns.unwrap()),
            !self.has_known_columns() ==> r is Err && r->Err_0.kind == ErrorKind::ShapeError,
    {
        match self.num_columns {
            Some(n) => if n >= 0 {
                Ok(n)
            } else {
                Err(Error::new(ErrorKind::ShapeError, "number of columns must not be negative"))
            },
            None => Err(Error::new(ErrorKind::ShapeError, "number of columns is unknown")),
        }
    }
}

impl ValueProperties {
    /// The properties of a dense array, or a type error for the other shapes.
    pub fn get_arraynd(&self) -> (r: Result<&ArrayProperties, Error>)
        ensures
            self matches ValueProperties::ArrayND(p) ==> r == Ok::<&ArrayProperties, Error>(p),
            self !is ArrayND ==> r is Err && r->Err_0.kind == ErrorKind::TypeError,
    {
        match self {
            ValueProperties::ArrayND(p) => Ok(p),
            _ => Err(Error::new(ErrorKind::TypeError, "properties must be of a dense array")),
        }
    }
}

/// A copy of `v`.
pub fn copy_reals(v: &Vec<Real>) -> (r: Vec<Real>)
    ensures
        r@ == v@,
{
    let mut r: Vec<Real> = Vec::new();
    let mut i: usize = 0;
    while i < v.len()
        invariant
            i <= v@.len(),
            r@ == v@.take(i as int),
        decreases v@.len() - i,
    {
        r.push(v[i]);
        i += 1;
        proof {
            assert(r@ =~= v@.take(i as int));
        }
    }
    proof {
        assert(v@.take(v@.len() as int) =~= v@);
    }
    r
}

/// A copy of an optional string.
pub fn copy_name(s: &Option<String>) -> (r: Option<String>)
    ensures
        r == *s,
{
    match s {
        Some(x) => Some(x.clone()),
        None => None,
    }
}

} // verus!
