use vstd::prelude::*;

verus! {

/// Something which can be indexed by column.
///
/// An implementor describes itself by two spec functions: how many columns
/// it has, and which column stands at each index below that count. The
/// executable methods are held to that description.
pub trait Columnar: Sized {
    type Column;

    /// The number of columns.
    spec fn ncols_spec(&self) -> nat;

    /// The column at index `i`, meaningful for `0 <= i < ncols_spec()`.
    spec fn column_spec(&self, i: int) -> Self::Column;

    /// Return the number of columns.
    fn ncols(&self) -> (n: usize)
        ensures
            n == self.ncols_spec(),
    ;

    /// Select a column by index: the column where one exists for the given
    /// index, `None` where the index is out of bounds.
    fn column(&self, i: usize) -> (r: Option<Self::Column>)
        ensures
            r == if i < self.ncols_spec() {
                Some(self.column_spec(i as int))
            } else {
                None
            },
    ;

    /// A fresh pass over the columns, from the first to the last.
    fn cols_iter<'a>(&'a self) -> (it: ColsIterator<'a, Self>)
        ensures
            it.target() == self,
            it.position() == 0,
            it.end() == self.ncols_spec(),
    {
        ColsIterator { target: self, i: 0, max: self.ncols() }
    }
}

/// A pass over the columns of a `Columnar` value: it walks the indices from
/// `position()` up to `end()` and stops there.
pub struct ColsIterator<'a, C> {
    target: &'a C,
    i: usize,
    max: usize,
}

impl<'a, C> ColsIterator<'a, C> {
    /// The value whose columns are handed out.
    pub closed spec fn target(&self) -> &'a C {
        self.target
    }

    /// The index of the column that comes next.
    pub closed spec fn position(&self) -> nat {
        self.i as nat
    }

    /// The index at which the pass ends.
    pub closed spec fn end(&self) -> nat {
        self.max as nat
    }
}

impl<'a, C: Columnar> ColsIterator<'a, C> {
    /// Hand out the next column and step forward, or return `None` once the
    /// end is reached. After that every further call returns `None`.
    pub fn next(&mut self) -> (r: Option<C::Column>)
        ensures
            final(self).target() == old(self).target(),
            final(self).end() == old(self).end(),
            final(self).position() == if old(self).position() < old(self).end() {
                old(self).position() + 1
            } else {
                old(self).position()
            },
            r == if old(self).position() < old(self).end() && old(self).position() < old(
                self,
            ).target().ncols_spec() {
                Some(old(self).target().column_spec(old(self).position() as int))
            } else {
                None
            },
    {
        let column = self.i;
        if column < self.max {
            self.i += 1;
            self.target.column(column)
        } else {
            None
        }
    }
}

/// Something which can be indexed by row.
///
/// The mirror image of [`Columnar`]: a count of rows and the row at each
/// index below it.
pub trait Tabular: Sized {
    type Row;

    /// The number of rows.
    spec fn nrows_spec(&self) -> nat;

    /// The row at index `i`, meaningful for `0 <= i < nrows_spec()`.
    spec fn row_spec(&self, i: int) -> Self::Row;

    /// Returns the number of rows.
    fn nrows(&self) -> (n: usize)
        ensures
            n == self.nrows_spec(),
    ;

    /// Select a row by index: the row where one exists for the given index,
    /// `None` where the index is out of bounds.
    fn row(&self, i: usize) -> (r: Option<Self::Row>)
        ensures
            r == if i < self.nrows_spec() {
                Some(self.row_spec(i as int))
            } else {
                None
            },
    ;

    /// A fresh pass over the rows, from the first to the last.
    fn rows_iter<'a>(&'a self) -> (it: RowsIterator<'a, Self>)
        ensures
            it.target() == self,
            it.position() == 0,
            it.end() == self.nrows_spec(),
    {
        RowsIterator { target: self, i: 0, max: self.nrows() }
    }
}

/// A pass over the rows of a `Tabular` value: it walks the indices from
/// `position()` up to `end()` and stops there.
pub struct RowsIterator<'a, R> {
    target: &'a R,
    i: usize,
    max: usize,
}

impl<'a, R> RowsIterator<'a, R> {
    /// The value whose rows are handed out.
    pub closed spec fn target(&self) -> &'a R {
        self.target
    }

    /// The index of the row that comes next.
    pub closed spec fn position(&self) -> nat {
        self.i as nat
    }

    /// The index at which the pass ends.
    pub closed spec fn end(&self) -> nat {
        self.max as nat
    }
}

impl<'a, R: Tabular> RowsIterator<'a, R> {
    /// Hand out the next row and step forward, or return `None` once the
    /// end is reached. After that every further call returns `None`.
    pub fn next(&mut self) -> (r: Option<R::Row>)
        ensures
            final(self).target() == old(self).target(),
            final(self).end() == old(self).end(),
            final(self).position() == if old(self).position() < old(self).end() {
                old(self).position() + 1
            } else {
                old(self).position()
            },
            r == if old(self).position() < old(self).end() && old(self).position() < old(
                self,
            ).target().nrows_spec() {
                Some(old(self).target().row_spec(old(self).position() as int))
            } else {
                None
            },
    {
        let row = self.i;
        if row < self.max {
            self.i += 1;
            self.target.row(row)
        } else {
            None
        }
    }
}

} // verus!
