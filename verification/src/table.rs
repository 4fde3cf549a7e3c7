//! In-memory tables: named columns with inferred types and a fixed row count.
use vstd::prelude::*;

verus! {

/// The type inferred for a column from its cell contents.
#[derive(Debug, Clone, Copy, PartialEq, Eq, Structural)]
pub enum ColType {
    /// Every present cell is a decimal integer literal.
    IntCol,
    /// Every present cell is numeric, and at least one carries a decimal point.
    FloatCol,
    /// At least one present cell is not numeric.
    StrCol,
}

/// A columnar table: a header row of column names, one inferred type per
/// column, and data rows whose cells are either present text or missing.
#[derive(Debug, Clone)]
pub struct Table {
    /// Column names, from the header row.
    pub headers: Vec<String>,
    /// One inferred type per column.
    pub dtypes: Vec<ColType>,
    /// Data rows; a `None` cell is a missing value.
    pub rows: Vec<Vec<Option<String>>>,
}

impl Table {
    /// Every row is as wide as the header, and there is one type per column.
    pub open spec fn wf(self) -> bool {
        &&& self.dtypes@.len() == self.headers@.len()
        &&& forall|i: int|
            0 <= i < self.rows@.len() ==> (#[trigger] self.rows@[i])@.len() == self.headers@.len()
    }

    /// The number of data rows.
    pub fn height(&self) -> (r: usize)
        ensures
            r == self.rows@.len(),
    {
        self.rows.len()
    }

    /// The number of columns.
    pub fn width(&self) -> (r: usize)
        ensures
            r == self.headers@.len(),
    {
        self.headers.len()
    }

    /// The name of one column.
    pub fn header_at(&self, j: usize) -> (r: &String)
        requires
            j < self.headers@.len(),
        ensures
            r == self.headers@[j as int],
    {
        &self.headers[j]
    }

    /// The inferred type of one column.
    pub fn dtype_at(&self, j: usize) -> (r: ColType)
        requires
            j < self.dtypes@.len(),
        ensures
            r == self.dtypes@[j as int],
    {
        self.dtypes[j]
    }

    /// One cell; `None` is a missing value.
    pub fn cell(&self, i: usize, j: usize) -> (r: &Option<String>)
        requires
            i < self.rows@.len(),
            j < self.rows@[i as int]@.len(),
        ensures
            r == self.rows@[i as int]@[j as int],
    {
        &self.rows[i][j]
    }
}

} // verus!
