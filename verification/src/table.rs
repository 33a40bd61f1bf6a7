//! The minimal tabular record model the classifier consumes and produces.
//!
//! A [`Table`] is an ordered list of named columns of equal length with
//! pairwise-distinct names, mirroring the guarantees of a dataframe. A
//! column holds nullable strings, nullable fixed-point coordinates in
//! micro-units, or non-null numeric codes.
//!
//! Contracts speak about tables through [`ColumnModel`]: a ghost image of
//! a column as sequences of plain mathematical values.

use vstd::prelude::*;

verus! {

/// Ghost image of a column's payload.
#[verifier::ext_equal]
pub enum ColumnDataModel {
    /// Nullable strings, as sequences of characters.
    Utf8(Seq<Option<Seq<char>>>),
    /// Nullable fixed-point values in micro-units.
    Real(Seq<Option<i64>>),
    /// Non-null numeric codes.
    Code(Seq<u32>),
}

/// Ghost image of a named column.
#[verifier::ext_equal]
pub struct ColumnModel {
    pub name: Seq<char>,
    pub data: ColumnDataModel,
}

impl ColumnDataModel {
    /// The number of rows the payload covers.
    pub open spec fn len(self) -> nat {
        match self {
            ColumnDataModel::Utf8(s) => s.len(),
            ColumnDataModel::Real(s) => s.len(),
            ColumnDataModel::Code(s) => s.len(),
        }
    }
}

/// The payload of a column.
#[derive(Debug)]
pub enum ColumnData {
    /// Nullable strings (e.g. station identifiers).
    Utf8(Vec<Option<String>>),
    /// Nullable fixed-point values in micro-units (e.g. coordinates).
    Real(Vec<Option<i64>>),
    /// Non-null numeric codes (e.g. LCZ codes).
    Code(Vec<u32>),
}

/// A named column.
#[derive(Debug)]
pub struct Column {
    pub name: String,
    pub data: ColumnData,
}

/// An ordered list of equally long, distinctly named columns.
#[derive(Debug)]
pub struct Table {
    pub columns: Vec<Column>,
}

impl ColumnData {
    /// The ghost image of the payload.
    pub open spec fn model(self) -> ColumnDataModel {
        match self {
            ColumnData::Utf8(v) => ColumnDataModel::Utf8(v.deep_view()),
            ColumnData::Real(v) => ColumnDataModel::Real(v@),
            ColumnData::Code(v) => ColumnDataModel::Code(v@),
        }
    }

    /// The number of rows the payload covers.
    pub fn len(&self) -> (n: usize)
        ensures
            n == self.model().len(),
    {
        match self {
            ColumnData::Utf8(v) => v.len(),
            ColumnData::Real(v) => v.len(),
            ColumnData::Code(v) => v.len(),
        }
    }

    /// An exact copy of the payload.
    pub fn duplicate(&self) -> (d: ColumnData)
        ensures
            d.model() == self.model(),
    {
        match self {
            ColumnData::Utf8(v) => {
                let n = v.len();
                let mut out: Vec<Option<String>> = Vec::new();
                let mut i: usize = 0;
                while i < n
                    invariant
                        i <= n,
                        n == v@.len(),
                        out@.len() == i,
                        forall|j: int| 0 <= j < i ==> out@[j] == v@[j],
                    decreases n - i,
                {
                    let e: Option<String> = match &v[i] {
                        Some(s) => Some(s.clone()),
                        None => None,
                    };
                    out.push(e);
                    i += 1;
                }
                proof {
                    assert(out@ =~= v@);
                }
                ColumnData::Utf8(out)
            },
            ColumnData::Real(v) => {
                let n = v.len();
                let mut out: Vec<Option<i64>> = Vec::new();
                let mut i: usize = 0;
                while i < n
                    invariant
                        i <= n,
                        n == v@.len(),
                        out@.len() == i,
                        forall|j: int| 0 <= j < i ==> out@[j] == v@[j],
                    decreases n - i,
                {
                    let e: Option<i64> = match &v[i] {
                        Some(x) => Some(*x),
                        None => None,
                    };
                    out.push(e);
                    i += 1;
                }
                proof {
                    assert(out@ =~= v@);
                }
                ColumnData::Real(out)
            },
            ColumnData::Code(v) => {
                let n = v.len();
                let mut out: Vec<u32> = Vec::new();
                let mut i: usize = 0;
                while i < n
                    invariant
                        i <= n,
                        n == v@.len(),
                        out@.len() == i,
                        forall|j: int| 0 <= j < i ==> out@[j] == v@[j],
                    decreases n - i,
                {
                    out.push(v[i]);
                    i += 1;
                }
                proof {
                    assert(out@ =~= v@);
                }
                ColumnData::Code(out)
            },
        }
    }
}

impl Column {
    /// The ghost image of the column.
    pub open spec fn model(self) -> ColumnModel {
        ColumnModel { name: self.name@, data: self.data.model() }
    }

    /// An exact copy of the column.
    pub fn duplicate(&self) -> (c: Column)
        ensures
            c.model() == self.model(),
    {
        Column { name: self.name.clone(), data: self.data.duplicate() }
    }
}

/// Whether some column in `cols` is named `name`.
pub open spec fn spec_has_col(cols: Seq<ColumnModel>, name: Seq<char>) -> bool {
    exists|i: int| 0 <= i < cols.len() && cols[i].name == name
}

/// The index of the column named `name`; under distinct names there is at
/// most one.
pub open spec fn spec_col_index(cols: Seq<ColumnModel>, name: Seq<char>) -> int
    recommends
        spec_has_col(cols, name),
{
    choose|i: int| 0 <= i < cols.len() && cols[i].name == name
}

/// The column named `name`.
pub open spec fn spec_col_of(cols: Seq<ColumnModel>, name: Seq<char>) -> ColumnModel
    recommends
        spec_has_col(cols, name),
{
    cols[spec_col_index(cols, name)]
}

/// Column names are pairwise distinct.
pub open spec fn spec_unique_names(cols: Seq<ColumnModel>) -> bool {
    forall|i: int, j: int| 0 <= i < j < cols.len() ==> cols[i].name != cols[j].name
}

/// The common row count: that of the first column (zero when empty).
pub open spec fn spec_num_rows(cols: Seq<ColumnModel>) -> nat {
    if cols.len() == 0 {
        0
    } else {
        cols[0].data.len()
    }
}

/// Every column covers the common row count.
pub open spec fn spec_uniform(cols: Seq<ColumnModel>) -> bool {
    forall|i: int| 0 <= i < cols.len() ==> cols[i].data.len() == spec_num_rows(cols)
}

/// The columns after setting column `c`: the column of the same name is
/// replaced in place, or `c` is appended when no column bears its name.
pub open spec fn spec_with_col(cols: Seq<ColumnModel>, c: ColumnModel) -> Seq<ColumnModel> {
    if spec_has_col(cols, c.name) {
        cols.update(spec_col_index(cols, c.name), c)
    } else {
        cols.push(c)
    }
}

impl Table {
    /// The ghost image of the table: its columns' models, in order.
    pub open spec fn model(self) -> Seq<ColumnModel> {
        self.columns@.map(|i: int, c: Column| c.model())
    }

    /// Well-formedness: distinct names and a uniform row count.
    pub open spec fn wf(self) -> bool {
        spec_unique_names(self.model()) && spec_uniform(self.model())
    }

    /// An empty table.
    pub fn new() -> (t: Table)
        ensures
            t.model().len() == 0,
            t.wf(),
    {
        Table { columns: Vec::new() }
    }

    /// The common row count of the columns.
    pub fn num_rows(&self) -> (n: usize)
        ensures
            n == spec_num_rows(self.model()),
    {
        if self.columns.len() == 0 {
            0
        } else {
            self.columns[0].data.len()
        }
    }

    /// The index of the first column named `name`, or the column count
    /// when there is none.
    fn find_col(&self, name: &str) -> (r: usize)
        ensures
            r <= self.model().len(),
            r < self.model().len() ==> self.model()[r as int].name == name@ && (forall|j: int|
                0 <= j < r ==> self.model()[j].name != name@),
            r == self.model().len() ==> !spec_has_col(self.model(), name@),
    {
        let key: String = name.to_owned();
        let n = self.columns.len();
        let mut i: usize = 0;
        while i < n
            invariant
                i <= n,
                n == self.columns@.len(),
                key@ == name@,
                forall|j: int| 0 <= j < i ==> self.model()[j].name != name@,
            decreases n - i,
        {
            if self.columns[i].name == key {
                assert(self.model()[i as int].name == name@);
                return i;
            }
            assert(self.model()[i as int].name != name@);
            i += 1;
        }
        i
    }

    /// Whether the table has a column named `name`.
    pub fn has_column(&self, name: &str) -> (r: bool)
        ensures
            r == spec_has_col(self.model(), name@),
    {
        let idx = self.find_col(name);
        idx < self.columns.len()
    }

    /// The column named `name`, if any.
    pub fn get_column(&self, name: &str) -> (r: Option<&Column>)
        requires
            spec_unique_names(self.model()),
        ensures
            match r {
                Some(c) => spec_has_col(self.model(), name@) && c.model() == spec_col_of(
                    self.model(),
                    name@,
                ),
                None => !spec_has_col(self.model(), name@),
            },
    {
        let idx = self.find_col(name);
        if idx < self.columns.len() {
            proof {
                lemma_unique_col_index(self.model(), name@, idx as int);
            }
            Some(&self.columns[idx])
        } else {
            None
        }
    }

    /// Set a column: replace the column of the same name in place, or
    /// append when no column bears the name. Mirrors how a dataframe
    /// adopts a new column, and keeps the table well-formed.
    pub fn with_column(&mut self, col: Column)
        requires
            old(self).wf(),
            old(self).model().len() == 0 || col.model().data.len() == spec_num_rows(
                old(self).model(),
            ),
        ensures
            final(self).model() == spec_with_col(old(self).model(), col.model()),
            final(self).wf(),
            spec_num_rows(final(self).model()) == if old(self).model().len() == 0 {
                col.model().data.len()
            } else {
                spec_num_rows(old(self).model())
            },
    {
        let ghost old_model = old(self).model();
        let ghost cm = col.model();
        let idx = self.find_col(col.name.as_str());
        let n = self.columns.len();
        if idx < n {
            proof {
                lemma_unique_col_index(old_model, cm.name, idx as int);
            }
            self.columns.set(idx, col);
            proof {
                assert(self.model() =~= old_model.update(idx as int, cm));
                assert forall|i: int, j: int|
                    0 <= i < j < self.model().len() implies self.model()[i].name
                    != self.model()[j].name by {
                    assert(self.model()[i].name == old_model[i].name);
                    assert(self.model()[j].name == old_model[j].name);
                }
                assert(spec_num_rows(self.model()) == spec_num_rows(old_model));
                assert forall|i: int| 0 <= i < self.model().len() implies self.model()[i].data.len()
                    == spec_num_rows(self.model()) by {
                    if i != idx as int {
                        assert(self.model()[i] == old_model[i]);
                    }
                }
            }
        } else {
            self.columns.push(col);
            proof {
                assert(self.model() =~= old_model.push(cm));
                assert forall|i: int, j: int|
                    0 <= i < j < self.model().len() implies self.model()[i].name
                    != self.model()[j].name by {
                    if j < old_model.len() {
                        assert(self.model()[i] == old_model[i]);
                        assert(self.model()[j] == old_model[j]);
                    } else {
                        assert(self.model()[j] == cm);
                        assert(self.model()[i] == old_model[i]);
                        assert(!spec_has_col(old_model, cm.name));
                    }
                }
                assert forall|i: int| 0 <= i < self.model().len() implies self.model()[i].data.len()
                    == spec_num_rows(self.model()) by {
                    if old_model.len() == 0 {
                        assert(self.model().len() == 1);
                        assert(self.model()[0] == cm);
                    } else {
                        assert(self.model()[0] == old_model[0]);
                        if i < old_model.len() {
                            assert(self.model()[i] == old_model[i]);
                        } else {
                            assert(self.model()[i] == cm);
                        }
                    }
                }
            }
        }
    }

    /// An exact copy of the table.
    pub fn duplicate(&self) -> (t: Table)
        ensures
            t.model() == self.model(),
    {
        let n = self.columns.len();
        let mut cols: Vec<Column> = Vec::new();
        let mut i: usize = 0;
        while i < n
            invariant
                i <= n,
                n == self.columns@.len(),
                cols@.len() == i,
                forall|j: int| 0 <= j < i ==> #[trigger] cols@[j].model() == self.model()[j],
            decreases n - i,
        {
            let c = self.columns[i].duplicate();
            cols.push(c);
            i += 1;
        }
        let t = Table { columns: cols };
        proof {
            assert(t.model() =~= self.model());
        }
        t
    }
}

/// Under distinct names, any index whose column bears `name` is the index
/// `spec_col_index` designates.
pub proof fn lemma_unique_col_index(cols: Seq<ColumnModel>, name: Seq<char>, i: int)
    requires
        spec_unique_names(cols),
        0 <= i < cols.len(),
        cols[i].name == name,
    ensures
        spec_has_col(cols, name),
        spec_col_index(cols, name) == i,
        spec_col_of(cols, name) == cols[i],
{
    assert(spec_has_col(cols, name));
    let k = spec_col_index(cols, name);
    assert(0 <= k < cols.len() && cols[k].name == name);
    if k < i {
        assert(cols[k].name != cols[i].name);
    } else if i < k {
        assert(cols[i].name != cols[k].name);
    }
}

} // verus!
