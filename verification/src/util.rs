//! Builders of simple SQL statements: a filtered `SELECT`/`DELETE` and an
//! `INSERT`, with positional `$n` parameters.

use vstd::prelude::*;

use crate::text::{append_decimal, decimal};

verus! {

/// Filtering operation
#[derive(Clone, Copy, Debug, PartialEq, Eq, Structural)]
pub enum FilteredOperation {
    Select,
    Delete,
}

/// The statement head of a filtering operation.
pub open spec fn operation_head(op: FilteredOperation) -> Seq<char> {
    match op {
        FilteredOperation::Select => "SELECT * FROM"@,
        FilteredOperation::Delete => "DELETE FROM"@,
    }
}

/// The `WHERE` clause over `columns`: ` WHERE c1 = $1 AND c2 = $2 ...`,
/// empty when there is no column.
pub open spec fn where_clause(columns: Seq<Seq<char>>) -> Seq<char>
    decreases columns.len(),
{
    if columns.len() == 0 {
        Seq::empty()
    } else {
        where_clause(columns.drop_last()) + (if columns.len() == 1 {
            " WHERE "@
        } else {
            " AND "@
        }) + columns.last() + " = $"@ + decimal(columns.len())
    }
}

/// The full text of a filtering statement.
pub open spec fn filtered_statement(
    op: FilteredOperation,
    table: Seq<char>,
    columns: Seq<Seq<char>>,
    extra: Seq<char>,
) -> Seq<char> {
    operation_head(op) + " "@ + table + where_clause(columns) + " "@ + extra + ";"@
}

/// Column names joined by `, `.
pub open spec fn column_list(columns: Seq<Seq<char>>) -> Seq<char>
    decreases columns.len(),
{
    if columns.len() == 0 {
        Seq::empty()
    } else {
        column_list(columns.drop_last()) + (if columns.len() == 1 {
            Seq::empty()
        } else {
            ", "@
        }) + columns.last()
    }
}

/// The placeholders `$1, $2, ..., $n`.
pub open spec fn placeholder_list(n: nat) -> Seq<char>
    decreases n,
{
    if n == 0 {
        Seq::empty()
    } else {
        placeholder_list((n - 1) as nat) + (if n == 1 {
            Seq::empty()
        } else {
            ", "@
        }) + "$"@ + decimal(n)
    }
}

/// The full text of an insert statement.
pub open spec fn insert_statement(table: Seq<char>, columns: Seq<Seq<char>>, extra: Seq<char>) -> Seq<char> {
    "INSERT INTO "@ + table + " ("@ + column_list(columns) + ") VALUES ("@ + placeholder_list(
        columns.len(),
    ) + ")"@ + " "@ + extra + ";"@
}

/// The texts of a sequence of strings.
pub open spec fn texts(v: Seq<String>) -> Seq<Seq<char>> {
    v.map_values(|c: String| c@)
}

/// Construct a simple select or delete query.
#[derive(Debug)]
pub struct FilteredOperationBuilder<A> {
    op: FilteredOperation,
    table: String,
    extra: String,
    columns: Vec<String>,
    args: Vec<A>,
}

impl<A> FilteredOperationBuilder<A> {
    pub closed spec fn op(&self) -> FilteredOperation {
        self.op
    }

    pub closed spec fn table(&self) -> Seq<char> {
        self.table@
    }

    pub closed spec fn extra(&self) -> Seq<char> {
        self.extra@
    }

    /// The filtered columns, in the order they were added.
    pub closed spec fn columns(&self) -> Seq<Seq<char>> {
        texts(self.columns@)
    }

    /// The filter values, in the order they were added.
    pub closed spec fn args(&self) -> Seq<A> {
        self.args@
    }

    pub closed spec fn wf(&self) -> bool {
        self.columns@.len() == self.args@.len()
    }

    /// Create a new builder
    pub fn new(op: FilteredOperation, table: &str) -> (r: Self)
        ensures
            r.wf(),
            r.op() == op,
            r.table() == table@,
            r.extra() == Seq::<char>::empty(),
            r.columns() == Seq::<Seq<char>>::empty(),
            r.args() == Seq::<A>::empty(),
    {
        let r = FilteredOperationBuilder {
            op,
            table: String::from_str(table),
            extra: String::new(),
            columns: Vec::new(),
            args: Vec::new(),
        };
        assert(texts(r.columns@) =~= Seq::<Seq<char>>::empty());
        r
    }

    /// Add filtering arguments
    pub fn with_arg(self, column: &str, value: A) -> (r: Self)
        requires
            self.wf(),
        ensures
            r.wf(),
            r.op() == self.op(),
            r.table() == self.table(),
            r.extra() == self.extra(),
            r.columns() == self.columns().push(column@),
            r.args() == self.args().push(value),
    {
        let mut b = self;
        b.columns.push(String::from_str(column));
        b.args.push(value);
        assert(texts(b.columns@) =~= texts(self.columns@).push(column@));
        b
    }

    /// Add additional statements before the semicolon
    pub fn with_extra(self, statements: &str) -> (r: Self)
        requires
            self.wf(),
        ensures
            r.wf(),
            r.op() == self.op(),
            r.table() == self.table(),
            r.extra() == statements@,
            r.columns() == self.columns(),
            r.args() == self.args(),
    {
        let mut b = self;
        b.extra = String::from_str(statements);
        b
    }

    /// Build a query: the statement text and its arguments, `$i` standing for
    /// the `i`-th argument.
    pub fn build(self) -> (r: (String, Vec<A>))
        requires
            self.wf(),
        ensures
            r.0@ == filtered_statement(self.op(), self.table(), self.columns(), self.extra()),
            r.1@ == self.args(),
    {
        let FilteredOperationBuilder { op, table, extra, columns, args } = self;
        let mut query = String::new();
        match op {
            FilteredOperation::Select => query.append("SELECT * FROM"),
            FilteredOperation::Delete => query.append("DELETE FROM"),
        }
        query.append(" ");
        query.append(table.as_str());
        let ghost cols = texts(columns@);
        let n = columns.len();
        let mut i: usize = 0;
        while i < n
            invariant
                n == columns@.len(),
                n == args@.len(),
                cols == texts(columns@),
                i <= n,
                query@ == operation_head(op) + " "@ + table@ + where_clause(cols.take(i as int)),
            decreases n - i,
        {
            let ghost before = query@;
            if i == 0 {
                query.append(" WHERE ");
            } else {
                query.append(" AND ");
            }
            query.append(columns[i].as_str());
            query.append(" = $");
            append_decimal(&mut query, i + 1);
            proof {
                assert(cols.take(i + 1).drop_last() =~= cols.take(i as int));
                assert(cols.take(i + 1).last() == columns@[i as int]@);
                assert(query@ =~= operation_head(op) + " "@ + table@ + where_clause(cols.take(i + 1)));
            }
            i = i + 1;
        }
        assert(cols.take(n as int) =~= cols);
        query.append(" ");
        query.append(extra.as_str());
        query.append(";");
        (query, args)
    }
}

/// Construct a simple insert query.
#[derive(Debug)]
pub struct InsertBuilder<A> {
    table: String,
    extra: String,
    columns: Vec<String>,
    values: Vec<A>,
}

impl<A> InsertBuilder<A> {
    pub closed spec fn table(&self) -> Seq<char> {
        self.table@
    }

    pub closed spec fn extra(&self) -> Seq<char> {
        self.extra@
    }

    /// The inserted columns, in the order they were added.
    pub closed spec fn columns(&self) -> Seq<Seq<char>> {
        texts(self.columns@)
    }

    /// The inserted values, in the order they were added.
    pub closed spec fn values(&self) -> Seq<A> {
        self.values@
    }

    pub closed spec fn wf(&self) -> bool {
        self.columns@.len() == self.values@.len()
    }

    pub fn new(table: &str) -> (r: Self)
        ensures
            r.wf(),
            r.table() == table@,
            r.extra() == Seq::<char>::empty(),
            r.columns() == Seq::<Seq<char>>::empty(),
            r.values() == Seq::<A>::empty(),
    {
        let r = InsertBuilder { table: String::from_str(table), extra: String::new(), columns: Vec::new(), values: Vec::new() };
        assert(texts(r.columns@) =~= Seq::<Seq<char>>::empty());
        r
    }

    pub fn with_arg(self, column: &str, value: A) -> (r: Self)
        requires
            self.wf(),
        ensures
            r.wf(),
            r.table() == self.table(),
            r.extra() == self.extra(),
            r.columns() == self.columns().push(column@),
            r.values() == self.values().push(value),
    {
        let mut b = self;
        b.columns.push(String::from_str(column));
        b.values.push(value);
        assert(texts(b.columns@) =~= texts(self.columns@).push(column@));
        b
    }

    pub fn with_extra(self, statements: &str) -> (r: Self)
        requires
            self.wf(),
        ensures
            r.wf(),
            r.table() == self.table(),
            r.extra() == statements@,
            r.columns() == self.columns(),
            r.values() == self.values(),
    {
        let mut b = self;
        b.extra = String::from_str(statements);
        b
    }

    /// Builds a query: the statement text and its arguments, `$i` standing
    /// for the `i`-th value.
    pub fn build(self) -> (r: (String, Vec<A>))
        requires
            self.wf(),
        ensures
            r.0@ == insert_statement(self.table(), self.columns(), self.extra()),
            r.1@ == self.values(),
    {
        let InsertBuilder { table, extra, columns, values } = self;
        let ghost cols = texts(columns@);
        let mut col_string = String::new();
        let mut arg_string = String::new();
        let n = columns.len();
        let mut i: usize = 0;
        while i < n
            invariant
                n == columns@.len(),
                n == values@.len(),
                cols == texts(columns@),
                i <= n,
                col_string@ == column_list(cols.take(i as int)),
                arg_string@ == placeholder_list(i as nat),
            decreases n - i,
        {
            if i > 0 {
                col_string.append(", ");
                arg_string.append(", ");
            }
            col_string.append(columns[i].as_str());
            arg_string.append("$");
            append_decimal(&mut arg_string, i + 1);
            proof {
                assert(cols.take(i + 1).drop_last() =~= cols.take(i as int));
                assert(cols.take(i + 1).last() == columns@[i as int]@);
                assert(col_string@ =~= column_list(cols.take(i + 1)));
                assert(arg_string@ =~= placeholder_list((i + 1) as nat));
            }
            i = i + 1;
        }
        assert(cols.take(n as int) =~= cols);
        let mut query = String::new();
        query.append("INSERT INTO ");
        query.append(table.as_str());
        query.append(" (");
        query.append(col_string.as_str());
        query.append(") VALUES (");
        query.append(arg_string.as_str());
        query.append(")");
        query.append(" ");
        query.append(extra.as_str());
        query.append(";");
        assert(query@ =~= insert_statement(table@, cols, extra@));
        (query, values)
    }
}

/// An update: the rows a filter selects get new values in some columns.
#[derive(Debug)]
pub struct UpdateBuilder<A, V> {
    filter: FilteredOperationBuilder<A>,
    columns: Vec<String>,
    values: Vec<V>,
}

impl<A, V> UpdateBuilder<A, V> {
    /// The statement that selects the rows to update.
    pub closed spec fn filter(&self) -> FilteredOperationBuilder<A> {
        self.filter
    }

    /// The parts of the update: the row filter, the set columns and their
    /// values.
    pub fn into_parts(self) -> (r: (FilteredOperationBuilder<A>, Vec<String>, Vec<V>))
        ensures
            r.0 == self.filter(),
            texts(r.1@) == self.columns(),
            r.2@ == self.values(),
    {
        (self.filter, self.columns, self.values)
    }

    /// The columns that are set, in the order they were added.
    pub closed spec fn columns(&self) -> Seq<Seq<char>> {
        texts(self.columns@)
    }

    /// The new values, in the order they were added.
    pub closed spec fn values(&self) -> Seq<V> {
        self.values@
    }

    pub closed spec fn wf(&self) -> bool {
        self.columns@.len() == self.values@.len() && self.filter.wf()
    }

    /// An update of the rows that `filter` selects, setting nothing yet.
    pub fn from_filter(filter: FilteredOperationBuilder<A>) -> (r: Self)
        requires
            filter.wf(),
        ensures
            r.wf(),
            r.filter() == filter,
            r.columns() == Seq::<Seq<char>>::empty(),
            r.values() == Seq::<V>::empty(),
    {
        let r = UpdateBuilder { filter, columns: Vec::new(), values: Vec::new() };
        assert(texts(r.columns@) =~= Seq::<Seq<char>>::empty());
        r
    }

    /// Also sets `column` to `value`.
    pub fn with_value(self, column: &str, value: V) -> (r: Self)
        requires
            self.wf(),
        ensures
            r.wf(),
            r.filter() == self.filter(),
            r.columns() == self.columns().push(column@),
            r.values() == self.values().push(value),
    {
        let mut b = self;
        b.columns.push(String::from_str(column));
        b.values.push(value);
        assert(texts(b.columns@) =~= texts(self.columns@).push(column@));
        b
    }
}

} // verus!
