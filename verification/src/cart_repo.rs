//! How the storage of cart entries reaches its two tables: registered
//! users' entries and anonymous sessions' entries. An operation for one
//! customer runs on that customer's table; an operation for all customers
//! runs on the users' table, then on the sessions' table, and answers with
//! both results in that order.

use vstd::prelude::*;

use crate::cart::{
    bool_arg, cart_filter_statement, filtered, ints_arg, meta_args, meta_columns, opt_seq, text_arg, uuid_arg, session_cart_item, session_conflict_clause, session_row_columns, session_row_values,
    split_cart_item_spec, update_columns, update_values, user_cart_item, user_conflict_clause, user_row_columns,
    user_row_values, CartItem, CartItemFilter, CartItemInserter, CartItemMetaFilter, CartItemSession,
    CartItemUpdateData, CartItemUpdater, CartItemUser, SplitCartItem, SplitCartItemInserter,
};
use crate::sql::{FilterArg, Range, RangeLimit, SqlValue};
use crate::types::CartCustomer;
use crate::util::{FilteredOperation, FilteredOperationBuilder, InsertBuilder, UpdateBuilder};

verus! {

/// The tables of cart entries.
#[derive(Clone, Copy, Debug, PartialEq, Eq, Structural)]
pub enum CartTable {
    User,
    Session,
}

/// The name of a table of cart entries.
pub open spec fn table_name(t: CartTable) -> Seq<char> {
    match t {
        CartTable::User => "cart_items_user"@,
        CartTable::Session => "cart_items_session"@,
    }
}

impl CartTable {
    /// The name of the table.
    pub fn name(&self) -> (r: &'static str)
        ensures
            r@ == table_name(*self),
    {
        match self {
            CartTable::User => "cart_items_user",
            CartTable::Session => "cart_items_session",
        }
    }
}

/// The tables that an operation on the entries of `customer` runs on, in
/// order: the customer's table, or both tables when no customer is named.
pub open spec fn tables_of(customer: Option<CartCustomer>) -> Seq<CartTable> {
    match customer {
        Some(CartCustomer::User(_)) => seq![CartTable::User],
        Some(CartCustomer::Anonymous(_)) => seq![CartTable::Session],
        None => seq![CartTable::User, CartTable::Session],
    }
}

fn duplicate_limit(l: &RangeLimit<i32>) -> (r: RangeLimit<i32>)
    ensures
        r == *l,
{
    RangeLimit { value: l.value, inclusive: l.inclusive }
}

/// Two optional ranges that select the same values: equal, or both lists
/// of the same values.
pub open spec fn same_range(a: Option<Range<i32>>, b: Option<Range<i32>>) -> bool {
    match (a, b) {
        (Some(Range::In(x)), Some(Range::In(y))) => x@ == y@,
        _ => a == b,
    }
}

/// Two filter arguments that carry the same values.
pub open spec fn same_arg(a: FilterArg, b: FilterArg) -> bool {
    match (a, b) {
        (FilterArg::Ints(x), FilterArg::Ints(y)) => same_range(Some(x), Some(y)),
        _ => a == b,
    }
}

/// Two argument lists that carry the same values, one by one.
pub open spec fn same_args(s: Seq<FilterArg>, t: Seq<FilterArg>) -> bool {
    s.len() == t.len() && forall|i: int| 0 <= i < s.len() ==> same_arg(#[trigger] s[i], t[i])
}

/// Two shared filters with the same conditions.
pub open spec fn same_meta(a: CartItemMetaFilter, b: CartItemMetaFilter) -> bool {
    &&& a.id == b.id
    &&& same_range(a.product_id, b.product_id)
    &&& same_range(a.quantity, b.quantity)
    &&& a.selected == b.selected
    &&& a.comment == b.comment
    &&& same_range(a.store_id, b.store_id)
    &&& same_range(a.coupon_id, b.coupon_id)
    &&& a.delivery_method_id == b.delivery_method_id
}

proof fn lemma_same_args_concat(s1: Seq<FilterArg>, s2: Seq<FilterArg>, t1: Seq<FilterArg>, t2: Seq<FilterArg>)
    requires
        same_args(s1, t1),
        same_args(s2, t2),
    ensures
        same_args(s1 + s2, t1 + t2),
{
    assert forall|i: int| 0 <= i < (s1 + s2).len() implies same_arg(#[trigger] (s1 + s2)[i], (t1 + t2)[i]) by {
        if i < s1.len() {
            assert((s1 + s2)[i] == s1[i]);
            assert((t1 + t2)[i] == t1[i]);
        } else {
            assert((s1 + s2)[i] == s2[i - s1.len()]);
            assert((t1 + t2)[i] == t2[i - t1.len()]);
        }
    }
}

proof fn lemma_same_opt(a: Option<FilterArg>, b: Option<FilterArg>)
    requires
        a is Some <==> b is Some,
        a is Some ==> same_arg(a->0, b->0),
    ensures
        same_args(opt_seq(a), opt_seq(b)),
{
}

/// Filters with the same conditions have the same columns and arguments.
proof fn lemma_same_meta_args(a: CartItemMetaFilter, b: CartItemMetaFilter)
    requires
        same_meta(a, b),
    ensures
        meta_columns(a) == meta_columns(b),
        same_args(meta_args(a), meta_args(b)),
{
    lemma_same_opt(uuid_arg(a.id), uuid_arg(b.id));
    lemma_same_opt(ints_arg(a.product_id), ints_arg(b.product_id));
    lemma_same_opt(bool_arg(a.selected), bool_arg(b.selected));
    lemma_same_opt(text_arg(a.comment), text_arg(b.comment));
    lemma_same_opt(ints_arg(a.store_id), ints_arg(b.store_id));
    lemma_same_opt(ints_arg(a.coupon_id), ints_arg(b.coupon_id));
    lemma_same_opt(text_arg(a.delivery_method_id), text_arg(b.delivery_method_id));
    let x1 = opt_seq(uuid_arg(a.id));
    let y1 = opt_seq(uuid_arg(b.id));
    let x2 = opt_seq(ints_arg(a.product_id));
    let y2 = opt_seq(ints_arg(b.product_id));
    let x3 = opt_seq(bool_arg(a.selected));
    let y3 = opt_seq(bool_arg(b.selected));
    let x4 = opt_seq(text_arg(a.comment));
    let y4 = opt_seq(text_arg(b.comment));
    let x5 = opt_seq(ints_arg(a.store_id));
    let y5 = opt_seq(ints_arg(b.store_id));
    let x6 = opt_seq(ints_arg(a.coupon_id));
    let y6 = opt_seq(ints_arg(b.coupon_id));
    let x7 = opt_seq(text_arg(a.delivery_method_id));
    let y7 = opt_seq(text_arg(b.delivery_method_id));
    lemma_same_args_concat(x1, x2, y1, y2);
    lemma_same_args_concat(x1 + x2, x3, y1 + y2, y3);
    lemma_same_args_concat(x1 + x2 + x3, x4, y1 + y2 + y3, y4);
    lemma_same_args_concat(x1 + x2 + x3 + x4, x5, y1 + y2 + y3 + y4, y5);
    lemma_same_args_concat(x1 + x2 + x3 + x4 + x5, x6, y1 + y2 + y3 + y4 + y5, y6);
    lemma_same_args_concat(x1 + x2 + x3 + x4 + x5 + x6, x7, y1 + y2 + y3 + y4 + y5 + y6, y7);
}

fn duplicate_range(r: &Option<Range<i32>>) -> (o: Option<Range<i32>>)
    ensures
        same_range(o, *r),
{
    match r {
        None => None,
        Some(Range::Exact(v)) => Some(Range::Exact(*v)),
        Some(Range::In(v)) => {
            let c = v.clone();
            assert(c@ =~= v@);
            Some(Range::In(c))
        },
        Some(Range::From(l)) => Some(Range::From(duplicate_limit(l))),
        Some(Range::To(l)) => Some(Range::To(duplicate_limit(l))),
        Some(Range::Between((a, b))) => Some(Range::Between((duplicate_limit(a), duplicate_limit(b)))),
    }
}

fn duplicate_text(t: &Option<String>) -> (o: Option<String>)
    ensures
        o == *t,
{
    match t {
        None => None,
        Some(s) => Some(s.clone()),
    }
}

impl CartItemMetaFilter {
    /// A copy of the filter, with the same conditions.
    pub fn duplicate(&self) -> (r: Self)
        ensures
            same_meta(r, *self),
    {
        CartItemMetaFilter {
            id: self.id,
            product_id: duplicate_range(&self.product_id),
            quantity: duplicate_range(&self.quantity),
            selected: self.selected,
            comment: duplicate_text(&self.comment),
            store_id: duplicate_range(&self.store_id),
            coupon_id: duplicate_range(&self.coupon_id),
            delivery_method_id: duplicate_text(&self.delivery_method_id),
        }
    }
}

impl CartItemUpdateData {
    /// An equal copy of the data.
    pub fn duplicate(&self) -> (r: Self)
        ensures
            r == *self,
    {
        CartItemUpdateData {
            quantity: self.quantity,
            selected: self.selected,
            comment: duplicate_text(&self.comment),
            coupon_id: self.coupon_id,
            delivery_method_id: self.delivery_method_id,
        }
    }
}

/// The owner condition's column of a customer, if any.
pub open spec fn owner_columns(customer: Option<CartCustomer>) -> Seq<Seq<char>> {
    match customer {
        Some(CartCustomer::User(_)) => seq!["user_id"@],
        Some(CartCustomer::Anonymous(_)) => seq!["session_id"@],
        None => Seq::empty(),
    }
}

/// The owner condition's argument of a customer, if any.
pub open spec fn owner_args(customer: Option<CartCustomer>) -> Seq<FilterArg> {
    match customer {
        Some(CartCustomer::User(u)) => seq![FilterArg::Value(SqlValue::Int(u.0))],
        Some(CartCustomer::Anonymous(s)) => seq![FilterArg::Value(SqlValue::Int(s.0))],
        None => Seq::empty(),
    }
}

/// `r` is an `op` statement on `table` with conditions on `columns` whose
/// arguments carry the values of `args`.
pub open spec fn statement_alike(
    r: FilteredOperationBuilder<FilterArg>,
    op: FilteredOperation,
    table: Seq<char>,
    columns: Seq<Seq<char>>,
    args: Seq<FilterArg>,
) -> bool {
    &&& r.wf()
    &&& r.op() == op
    &&& r.table() == table
    &&& r.extra() == Seq::<char>::empty()
    &&& r.columns() == columns
    &&& same_args(r.args(), args)
}

/// `r` is the statement of the cart filter `f` on `table`, up to copies of
/// its arguments.
pub open spec fn filter_statement_alike(
    r: FilteredOperationBuilder<FilterArg>,
    f: CartItemFilter,
    op: FilteredOperation,
    table: Seq<char>,
) -> bool {
    statement_alike(
        r,
        op,
        table,
        owner_columns(f.customer) + meta_columns(f.meta_filter),
        owner_args(f.customer) + meta_args(f.meta_filter),
    )
}

proof fn lemma_exact_is_alike(r: FilteredOperationBuilder<FilterArg>, f: CartItemFilter, op: FilteredOperation, table: Seq<char>)
    requires
        cart_filter_statement(r, f, op, table),
    ensures
        filter_statement_alike(r, f, op, table),
{
    assert(Seq::<Seq<char>>::empty() + meta_columns(f.meta_filter) =~= meta_columns(f.meta_filter));
    assert(Seq::<FilterArg>::empty() + meta_args(f.meta_filter) =~= meta_args(f.meta_filter));
    assert forall|i: int| 0 <= i < r.args().len() implies same_arg(#[trigger] r.args()[i], r.args()[i]) by {}
}

proof fn lemma_copy_is_alike(
    r: FilteredOperationBuilder<FilterArg>,
    copy: CartItemMetaFilter,
    f: CartItemFilter,
    op: FilteredOperation,
    table: Seq<char>,
)
    requires
        f.customer is None,
        same_meta(copy, f.meta_filter),
        filtered(r, op, table, meta_columns(copy), meta_args(copy)),
    ensures
        filter_statement_alike(r, f, op, table),
{
    lemma_same_meta_args(copy, f.meta_filter);
    assert(Seq::<Seq<char>>::empty() + meta_columns(f.meta_filter) =~= meta_columns(f.meta_filter));
    assert(Seq::<FilterArg>::empty() + meta_args(f.meta_filter) =~= meta_args(f.meta_filter));
}

/// A selecting or deleting statement and the table it runs on.
#[derive(Debug)]
pub struct TableFilter {
    pub table: CartTable,
    pub statement: FilteredOperationBuilder<FilterArg>,
}

/// An update and the table it runs on.
#[derive(Debug)]
pub struct TableUpdate {
    pub table: CartTable,
    pub statement: UpdateBuilder<FilterArg, SqlValue>,
}

/// An insert and the table it runs on.
#[derive(Debug)]
pub struct TableInsert {
    pub table: CartTable,
    pub statement: InsertBuilder<SqlValue>,
}

/// The statements that select (or delete) the entries of a filter: one per
/// table that the filter's customer reaches, in order, each on its table
/// with the filter's conditions.
pub fn filter_statements(filter: CartItemFilter, op: FilteredOperation) -> (r: Vec<TableFilter>)
    ensures
        r@.len() == tables_of(filter.customer).len(),
        cart_filter_statement(r@[0].statement, filter, op, table_name(r@[0].table)),
        forall|i: int| #![trigger r@[i]] 0 <= i < r@.len() ==> {
            &&& r@[i].table == tables_of(filter.customer)[i]
            &&& filter_statement_alike(r@[i].statement, filter, op, table_name(r@[i].table))
        },
{
    let ghost f = filter;
    let mut out: Vec<TableFilter> = Vec::new();
    match filter.customer {
        Some(CartCustomer::User(_)) => {
            let statement = filter.into_filtered_operation_builder(op, CartTable::User.name());
            out.push(TableFilter { table: CartTable::User, statement });
        },
        Some(CartCustomer::Anonymous(_)) => {
            let statement = filter.into_filtered_operation_builder(op, CartTable::Session.name());
            out.push(TableFilter { table: CartTable::Session, statement });
        },
        None => {
            let copy = filter.meta_filter.duplicate();
            let user = filter.meta_filter.into_filtered_operation_builder(op, CartTable::User.name());
            let session = copy.into_filtered_operation_builder(op, CartTable::Session.name());
            proof {
                lemma_exact_is_alike(user, f, op, table_name(CartTable::User));
                lemma_copy_is_alike(session, copy, f, op, table_name(CartTable::Session));
            }
            out.push(TableFilter { table: CartTable::User, statement: user });
            out.push(TableFilter { table: CartTable::Session, statement: session });
        },
    }
    proof {
        if f.customer is Some {
            lemma_exact_is_alike(out@[0].statement, f, op, table_name(out@[0].table));
        }
    }
    assert(out@.len() == tables_of(f.customer).len());
    out
}

/// The updates of the entries that an updater's filter selects: one per
/// table that the filter's customer reaches, in order, each selecting the
/// filter's rows on its table and setting the data's columns.
pub fn updater_statements(updater: CartItemUpdater) -> (r: Vec<TableUpdate>)
    ensures
        r@.len() == tables_of(updater.filter.customer).len(),
        cart_filter_statement(r@[0].statement.filter(), updater.filter, FilteredOperation::Select, table_name(r@[0].table)),
        forall|i: int| #![trigger r@[i]] 0 <= i < r@.len() ==> {
            &&& r@[i].table == tables_of(updater.filter.customer)[i]
            &&& r@[i].statement.wf()
            &&& filter_statement_alike(
                r@[i].statement.filter(),
                updater.filter,
                FilteredOperation::Select,
                table_name(r@[i].table),
            )
            &&& r@[i].statement.columns() == update_columns(updater.data)
            &&& r@[i].statement.values() == update_values(updater.data)
        },
{
    let ghost u = updater;
    let mut out: Vec<TableUpdate> = Vec::new();
    let CartItemUpdater { filter, data } = updater;
    match filter.customer {
        Some(CartCustomer::User(_)) => {
            let statement = CartItemUpdater { filter, data }.into_update_builder(CartTable::User.name());
            out.push(TableUpdate { table: CartTable::User, statement });
        },
        Some(CartCustomer::Anonymous(_)) => {
            let statement = CartItemUpdater { filter, data }.into_update_builder(CartTable::Session.name());
            out.push(TableUpdate { table: CartTable::Session, statement });
        },
        None => {
            let meta_copy = filter.meta_filter.duplicate();
            let data_copy = data.duplicate();
            let user = CartItemUpdater { filter, data }.into_update_builder(CartTable::User.name());
            let ghost copied = CartItemFilter { customer: None, meta_filter: meta_copy };
            let session = CartItemUpdater {
                filter: CartItemFilter { customer: None, meta_filter: meta_copy },
                data: data_copy,
            }.into_update_builder(CartTable::Session.name());
            proof {
                lemma_exact_is_alike(user.filter(), u.filter, FilteredOperation::Select, table_name(CartTable::User));
                lemma_copy_is_alike(
                    session.filter(),
                    meta_copy,
                    u.filter,
                    FilteredOperation::Select,
                    table_name(CartTable::Session),
                );
            }
            out.push(TableUpdate { table: CartTable::User, statement: user });
            out.push(TableUpdate { table: CartTable::Session, statement: session });
        },
    }
    proof {
        if u.filter.customer is Some {
            lemma_exact_is_alike(out@[0].statement.filter(), u.filter, FilteredOperation::Select, table_name(out@[0].table));
        }
    }
    assert(out@.len() == tables_of(u.filter.customer).len());
    out
}

/// The insert of an entry: into the users' table for a user's entry, into
/// the sessions' table for a session's entry, with the conflict clause of
/// the strategy.
pub fn inserter_statement(inserter: CartItemInserter) -> (r: TableInsert)
    ensures
        r.statement.wf(),
        r.statement.table() == table_name(r.table),
        match split_cart_item_spec(inserter.data) {
            SplitCartItem::User(d) => {
                &&& r.table == CartTable::User
                &&& r.statement.extra() == user_conflict_clause(inserter.strategy)
                &&& r.statement.columns() == user_row_columns()
                &&& r.statement.values() == user_row_values(d)
            },
            SplitCartItem::Session(d) => {
                &&& r.table == CartTable::Session
                &&& r.statement.extra() == session_conflict_clause(inserter.strategy)
                &&& r.statement.columns() == session_row_columns()
                &&& r.statement.values() == session_row_values(d)
            },
        },
{
    match inserter.split() {
        SplitCartItemInserter::User(i) => {
            TableInsert { table: CartTable::User, statement: i.into_insert_builder(CartTable::User.name()) }
        },
        SplitCartItemInserter::Session(i) => {
            TableInsert { table: CartTable::Session, statement: i.into_insert_builder(CartTable::Session.name()) }
        },
    }
}

/// The answer of an operation: the users' rows, then the sessions' rows,
/// each as a cart item.
pub fn joined_results(user_rows: Vec<CartItemUser>, session_rows: Vec<CartItemSession>) -> (r: Vec<CartItem>)
    ensures
        r@ == user_rows@.map_values(|e: CartItemUser| user_cart_item(e)) + session_rows@.map_values(
            |e: CartItemSession| session_cart_item(e),
        ),
{
    let ghost us = user_rows@;
    let ghost ss = session_rows@;
    let mut user_rows = user_rows;
    let mut session_rows = session_rows;
    let mut out: Vec<CartItem> = Vec::new();
    while user_rows.len() > 0
        invariant
            out@.len() + user_rows@.len() == us.len(),
            user_rows@ =~= us.subrange(out@.len() as int, us.len() as int),
            out@ =~= us.take(out@.len() as int).map_values(|e: CartItemUser| user_cart_item(e)),
        decreases user_rows@.len(),
    {
        let ghost k = out@.len() as int;
        let e = user_rows.remove(0);
        assert(e == us[k]);
        out.push(e.into_cart_item());
        assert(us.take(k + 1).map_values(|e: CartItemUser| user_cart_item(e)) =~= us.take(k).map_values(
            |e: CartItemUser| user_cart_item(e),
        ).push(user_cart_item(us[k])));
    }
    assert(us.take(us.len() as int) =~= us);
    let ghost head = out@;
    let ghost m = us.len();
    while session_rows.len() > 0
        invariant
            out@.len() == m + ss.len() - session_rows@.len(),
            session_rows@.len() <= ss.len(),
            session_rows@ =~= ss.subrange(out@.len() - m, ss.len() as int),
            head == us.map_values(|e: CartItemUser| user_cart_item(e)),
            m == us.len(),
            out@ =~= head + ss.take(out@.len() - m).map_values(|e: CartItemSession| session_cart_item(e)),
        decreases session_rows@.len(),
    {
        let ghost k = out@.len() - m;
        let e = session_rows.remove(0);
        assert(e == ss[k]);
        out.push(e.into_cart_item());
        assert(ss.take(k + 1).map_values(|e: CartItemSession| session_cart_item(e)) =~= ss.take(k).map_values(
            |e: CartItemSession| session_cart_item(e),
        ).push(session_cart_item(ss[k])));
    }
    assert(ss.take(ss.len() as int) =~= ss);
    out
}

} // verus!
