//! The columnar batch: five columns of equal length.

use vstd::prelude::*;
use crate::model::Entity;
use crate::schema::Schema;

verus! {

/// The rows of a snapshot, held column by column. Row `i` is what the five
/// columns hold at index `i`. The columns `x` and `y` hold IEEE-754 binary64
/// bit patterns.
#[derive(Debug, Clone, PartialEq, Eq)]
pub struct ColumnarBatch {
    pub ids: Vec<String>,
    pub names: Vec<String>,
    pub xs: Vec<u64>,
    pub ys: Vec<u64>,
    pub tasks: Vec<String>,
}

/// What a [`ColumnarBatch`] is, mathematically: five sequences.
pub struct BatchView {
    pub ids: Seq<Seq<char>>,
    pub names: Seq<Seq<char>>,
    pub xs: Seq<u64>,
    pub ys: Seq<u64>,
    pub tasks: Seq<Seq<char>>,
}

/// The characters of each string of a column, in order.
pub open spec fn texts(column: Seq<String>) -> Seq<Seq<char>> {
    Seq::new(column.len(), |i: int| column[i]@)
}

impl BatchView {
    /// The batch without rows.
    pub open spec fn empty() -> BatchView {
        BatchView {
            ids: Seq::empty(),
            names: Seq::empty(),
            xs: Seq::empty(),
            ys: Seq::empty(),
            tasks: Seq::empty(),
        }
    }

    /// The number of rows: the length of the first column.
    pub open spec fn rows(self) -> nat {
        self.ids.len()
    }

    /// All five columns have the same length.
    pub open spec fn wf(self) -> bool {
        &&& self.names.len() == self.rows()
        &&& self.xs.len() == self.rows()
        &&& self.ys.len() == self.rows()
        &&& self.tasks.len() == self.rows()
    }

    /// The rows from index `from` up to, not including, `to`.
    pub open spec fn slice(self, from: int, to: int) -> BatchView {
        BatchView {
            ids: self.ids.subrange(from, to),
            names: self.names.subrange(from, to),
            xs: self.xs.subrange(from, to),
            ys: self.ys.subrange(from, to),
            tasks: self.tasks.subrange(from, to),
        }
    }

    /// The rows of `self` followed by the rows of `other`.
    pub open spec fn concat(self, other: BatchView) -> BatchView {
        BatchView {
            ids: self.ids + other.ids,
            names: self.names + other.names,
            xs: self.xs + other.xs,
            ys: self.ys + other.ys,
            tasks: self.tasks + other.tasks,
        }
    }
}

impl View for ColumnarBatch {
    type V = BatchView;

    open spec fn view(&self) -> BatchView {
        BatchView {
            ids: texts(self.ids@),
            names: texts(self.names@),
            xs: self.xs@,
            ys: self.ys@,
            tasks: texts(self.tasks@),
        }
    }
}

/// Copies the strings of `column` from index `from` up to, not including,
/// `to`.
fn copy_texts(column: &Vec<String>, from: usize, to: usize) -> (part: Vec<String>)
    requires
        from <= to <= column.len(),
    ensures
        texts(part@) == texts(column@).subrange(from as int, to as int),
{
    let mut part: Vec<String> = Vec::new();
    let mut i: usize = from;
    while i < to
        invariant
            from <= i <= to <= column.len(),
            part@.len() == i - from,
            forall|k: int| 0 <= k < part@.len() ==> (#[trigger] part@[k])@ == column@[from + k]@,
        decreases to - i,
    {
        part.push(column[i].clone());
        i = i + 1;
    }
    assert(texts(part@) =~= texts(column@).subrange(from as int, to as int));
    part
}

/// Copies the numbers of `column` from index `from` up to, not including,
/// `to`.
fn copy_numbers(column: &Vec<u64>, from: usize, to: usize) -> (part: Vec<u64>)
    requires
        from <= to <= column.len(),
    ensures
        part@ == column@.subrange(from as int, to as int),
{
    let mut part: Vec<u64> = Vec::new();
    let mut i: usize = from;
    while i < to
        invariant
            from <= i <= to <= column.len(),
            part@.len() == i - from,
            forall|k: int| 0 <= k < part@.len() ==> #[trigger] part@[k] == column@[from + k],
        decreases to - i,
    {
        part.push(column[i]);
        i = i + 1;
    }
    assert(part@ =~= column@.subrange(from as int, to as int));
    part
}

impl ColumnarBatch {
    /// All five columns have the same length.
    pub open spec fn wf(&self) -> bool {
        self@.wf()
    }

    /// The batch without rows.
    pub fn new() -> (batch: ColumnarBatch)
        ensures
            batch@ == BatchView::empty(),
            batch.wf(),
    {
        let batch = ColumnarBatch {
            ids: Vec::new(),
            names: Vec::new(),
            xs: Vec::new(),
            ys: Vec::new(),
            tasks: Vec::new(),
        };
        assert(batch@.ids =~= Seq::empty());
        assert(batch@.names =~= Seq::empty());
        assert(batch@.tasks =~= Seq::empty());
        batch
    }

    /// Whether all five columns have the same length.
    pub fn is_well_formed(&self) -> (ok: bool)
        ensures
            ok == self.wf(),
    {
        let rows = self.ids.len();
        self.names.len() == rows && self.xs.len() == rows && self.ys.len() == rows
            && self.tasks.len() == rows
    }

    /// The number of rows.
    pub fn num_rows(&self) -> (n: usize)
        ensures
            n == self@.rows(),
    {
        self.ids.len()
    }

    /// The number of columns: always five.
    pub fn num_columns(&self) -> (n: usize)
        ensures
            n == 5,
    {
        5
    }

    /// The layout that every batch follows.
    pub fn schema(&self) -> (schema: Schema)
        ensures
            schema@ == crate::schema::standard_schema(),
    {
        Entity::arrow_schema()
    }

    /// A copy of the rows from index `from` up to, not including, `to`.
    pub fn slice(&self, from: usize, to: usize) -> (part: ColumnarBatch)
        requires
            self.wf(),
            from <= to <= self@.rows(),
        ensures
            part@ == self@.slice(from as int, to as int),
            part.wf(),
    {
        ColumnarBatch {
            ids: copy_texts(&self.ids, from, to),
            names: copy_texts(&self.names, from, to),
            xs: copy_numbers(&self.xs, from, to),
            ys: copy_numbers(&self.ys, from, to),
            tasks: copy_texts(&self.tasks, from, to),
        }
    }
}

} // verus!
