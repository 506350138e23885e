use vstd::prelude::*;
use crate::error::{Error, ErrorKind};
use crate::fixed::Real;

verus! {

/// A homogeneous array of rank 0, 1 or 2 (or more, which inference refuses),
/// held in row-major order: `data` has one element per cell of `shape`.
#[derive(Clone, Debug)]
pub struct DenseArray<T> {
    pub shape: Vec<usize>,
    pub data: Vec<T>,
}

/// The number of cells of an array of shape `s`.
pub open spec fn cells(s: Seq<usize>) -> int
    decreases s.len(),
{
    if s.len() == 0 {
        1
    } else {
        cells(s.drop_last()) * s.last()
    }
}

impl<T> DenseArray<T> {
    /// The array holds one element per cell of its shape.
    pub open spec fn wf(&self) -> bool {
        self.data@.len() == cells(self.shape@)
    }

    pub open spec fn rank(&self) -> int {
        self.shape@.len() as int
    }

    /// The number of columns: one for rank 0 and 1, the size of axis 1 for rank 2.
    pub open spec fn spec_columns(&self) -> int {
        if self.rank() <= 1 {
            1
        } else {
            self.shape@[1] as int
        }
    }

    /// The number of rows: one for rank 0, the size of axis 0 otherwise.
    pub open spec fn spec_rows(&self) -> int {
        if self.rank() == 0 {
            1
        } else {
            self.shape@[0] as int
        }
    }

    /// The elements of column `c` from top to bottom (rank at most 2).
    pub open spec fn column(&self, c: int) -> Seq<T> {
        if self.rank() <= 1 {
            self.data@
        } else {
            Seq::new(self.shape@[0] as nat, |r: int| self.data@[r * self.shape@[1] + c])
        }
    }

    /// A scalar: an array of rank 0.
    pub fn scalar(x: T) -> (r: DenseArray<T>)
        ensures
            r.wf(),
            r.shape@.len() == 0,
            r.data@ == seq![x],
    {
        let mut data = Vec::new();
        data.push(x);
        DenseArray { shape: Vec::new(), data }
    }

    /// A single column: an array of rank 1.
    pub fn from_column(data: Vec<T>) -> (r: DenseArray<T>)
        ensures
            r.wf(),
            r.shape@ == seq![data@.len() as usize],
            r.data@ == data@,
    {
        let mut shape = Vec::new();
        shape.push(data.len());
        proof {
            assert(shape@.drop_last() =~= Seq::<usize>::empty());
            reveal_with_fuel(cells, 2);
            assert(cells(shape@) == 1 * data@.len());
        }
        DenseArray { shape, data }
    }

    /// A table of `rows` rows and `columns` columns, from its elements in
    /// row-major order; `None` if their number is not `rows * columns`.
    pub fn from_rows(rows: usize, columns: usize, data: Vec<T>) -> (r: Option<DenseArray<T>>)
        ensures
            r is Some <==> data@.len() == rows as int * columns as int,
            r matches Some(a) ==> a.wf() && a.shape@ == seq![rows, columns] && a.data@ == data@,
    {
        if columns != 0 && data.len() / columns == rows && data.len() % columns == 0 {
            proof {
                assert(data@.len() == rows as int * columns as int) by (nonlinear_arith)
                    requires
                        columns != 0,
                        data@.len() as int / columns as int == rows,
                        data@.len() as int % columns as int == 0,
                ;
            }
            let mut shape = Vec::new();
            shape.push(rows);
            shape.push(columns);
            proof {
                assert(shape@.drop_last().drop_last() =~= Seq::<usize>::empty());
                reveal_with_fuel(cells, 3);
                assert(cells(shape@.drop_last()) == 1 * rows);
                assert(cells(shape@) == rows * columns);
            }
            Some(DenseArray { shape, data })
        } else if columns == 0 && data.len() == 0 {
            let mut shape = Vec::new();
            shape.push(rows);
            shape.push(columns);
            proof {
                assert(shape@.drop_last().drop_last() =~= Seq::<usize>::empty());
                reveal_with_fuel(cells, 3);
                assert(cells(shape@.drop_last()) == 1 * rows);
                assert(rows * columns == 0);
                assert(cells(shape@) == rows * columns);
            }
            Some(DenseArray { shape, data })
        } else {
            proof {
                if data@.len() == rows as int * columns as int {
                    assert(columns != 0);
                    assert((rows * columns) / columns as int == rows) by (nonlinear_arith)
                        requires
                            columns != 0,
                    ;
                    assert((rows * columns) % columns as int == 0) by (nonlinear_arith)
                        requires
                            columns != 0,
                    ;
                }
            }
            None
        }
    }
}

/// A dense array of one of the four base types.
#[derive(Clone, Debug)]
pub enum ArrayND {
    Bool(DenseArray<bool>),
    F64(DenseArray<Real>),
    I64(DenseArray<i64>),
    Str(DenseArray<String>),
}

impl ArrayND {
    pub open spec fn shape_view(&self) -> Seq<usize> {
        match self {
            ArrayND::Bool(a) => a.shape@,
            ArrayND::F64(a) => a.shape@,
            ArrayND::I64(a) => a.shape@,
            ArrayND::Str(a) => a.shape@,
        }
    }

    pub open spec fn wf(&self) -> bool {
        match self {
            ArrayND::Bool(a) => a.wf(),
            ArrayND::F64(a) => a.wf(),
            ArrayND::I64(a) => a.wf(),
            ArrayND::Str(a) => a.wf(),
        }
    }

    pub open spec fn num_cells(&self) -> int {
        match self {
            ArrayND::Bool(a) => a.data@.len() as int,
            ArrayND::F64(a) => a.data@.len() as int,
            ArrayND::I64(a) => a.data@.len() as int,
            ArrayND::Str(a) => a.data@.len() as int,
        }
    }
}

/// Columns of one base type, each either present or absent.
#[derive(Clone, Debug)]
pub enum Vector2DJagged {
    Bool(Vec<Option<Vec<bool>>>),
    F64(Vec<Option<Vec<Real>>>),
    I64(Vec<Option<Vec<i64>>>),
    Str(Vec<Option<Vec<String>>>),
}

impl Vector2DJagged {
    pub open spec fn spec_len(&self) -> int {
        match self {
            Vector2DJagged::Bool(v) => v@.len() as int,
            Vector2DJagged::F64(v) => v@.len() as int,
            Vector2DJagged::I64(v) => v@.len() as int,
            Vector2DJagged::Str(v) => v@.len() as int,
        }
    }
}

/// Values keyed by strings, integers or booleans.
#[derive(Debug)]
pub enum Hashmap {
    Str(Vec<(String, Value)>),
    I64(Vec<(i64, Value)>),
    Bool(Vec<(bool, Value)>),
}

/// A runtime datum of the computation graph.
#[derive(Debug)]
pub enum Value {
    ArrayND(ArrayND),
    Hashmap(Hashmap),
    Vector2DJagged(Vector2DJagged),
}

impl Value {
    /// The value's data as a dense array, or a type error.
    pub fn get_arraynd(&self) -> (r: Result<&ArrayND, Error>)
        ensures
            self matches Value::ArrayND(a) ==> r == Ok::<&ArrayND, Error>(a),
            self !is ArrayND ==> r is Err && r->Err_0.kind == ErrorKind::TypeError,
    {
        match self {
            Value::ArrayND(a) => Ok(a),
            _ => Err(Error::new(ErrorKind::TypeError, "value must be a dense array")),
        }
    }

    /// The value's data as jagged columns, or a type error.
    pub fn get_jagged(&self) -> (r: Result<&Vector2DJagged, Error>)
        ensures
            self matches Value::Vector2DJagged(j) ==> r == Ok::<&Vector2DJagged, Error>(j),
            self !is Vector2DJagged ==> r is Err && r->Err_0.kind == ErrorKind::TypeError,
    {
        match self {
            Value::Vector2DJagged(j) => Ok(j),
            _ => Err(Error::new(ErrorKind::TypeError, "value must be jagged columns")),
        }
    }
}

} // verus!
