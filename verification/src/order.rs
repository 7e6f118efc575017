//! Orders, their history records and the statements that read and write
//! them. Points in time are nanoseconds since the Unix epoch.

use vstd::prelude::*;

use crate::cart::{if_present, opt_seq, with_opt_arg};
use crate::sql::{FilterArg, Range, RangeLimit, SqlValue};
use crate::types::{
    CartItemId, ConversionId, CouponId, OrderDiffId, OrderId, OrderIdentifier, OrderSlug, OrderState,
    ProductId, Quantity, StoreId, UserId,
};
use crate::util::{FilteredOperation, FilteredOperationBuilder, InsertBuilder, UpdateBuilder};
use vstd::seq_lib::lemma_concat_associative;

verus! {

/// An order, without its amounts of money.
#[derive(Debug)]
pub struct Order {
    pub id: OrderId,
    pub created_from: CartItemId,
    pub conversion_id: ConversionId,
    pub slug: OrderSlug,
    pub customer: UserId,
    pub store: StoreId,
    pub product: ProductId,
    pub quantity: Quantity,
    pub receiver_name: String,
    pub receiver_phone: String,
    pub receiver_email: String,
    pub state: OrderState,
    pub payment_status: bool,
    pub delivery_company: Option<String>,
    pub track_id: Option<String>,
    pub pre_order: bool,
    pub pre_order_days: i32,
    pub coupon_id: Option<CouponId>,
    pub coupon_percent: Option<i32>,
    pub created_at: i128,
    pub updated_at: i128,
}

/// A record of an order's history: who moved it into which state, when.
#[derive(Debug)]
pub struct OrderDiff {
    pub id: OrderDiffId,
    pub parent: OrderId,
    pub committer: UserId,
    pub committed_at: i128,
    pub state: OrderState,
    pub comment: Option<String>,
}

/// The range from `from` to `to`, both inclusive, or from one end only.
pub open spec fn spec_into_range(from: Option<i128>, to: Option<i128>) -> Option<Range<i128>> {
    match (from, to) {
        (Some(f), Some(t)) => Some(
            Range::Between((RangeLimit { value: f, inclusive: true }, RangeLimit { value: t, inclusive: true })),
        ),
        (Some(f), None) => Some(Range::From(RangeLimit { value: f, inclusive: true })),
        (None, Some(t)) => Some(Range::To(RangeLimit { value: t, inclusive: true })),
        (None, None) => None,
    }
}

/// The inclusive range between two optional points in time.
pub fn into_range(from: Option<i128>, to: Option<i128>) -> (r: Option<Range<i128>>)
    ensures
        r == spec_into_range(from, to),
{
    match (from, to) {
        (Some(f), Some(t)) => Some(
            Range::Between((RangeLimit { value: f, inclusive: true }, RangeLimit { value: t, inclusive: true })),
        ),
        (Some(f), None) => Some(Range::From(RangeLimit { value: f, inclusive: true })),
        (None, Some(t)) => Some(Range::To(RangeLimit { value: t, inclusive: true })),
        (None, None) => None,
    }
}

/// Search terms of the order search.
#[derive(Debug)]
pub struct OrderSearchTerms {
    pub slug: Option<OrderSlug>,
    pub created_from: Option<i128>,
    pub created_to: Option<i128>,
    pub payment_status: Option<bool>,
    pub customer: Option<UserId>,
    pub store: Option<StoreId>,
    pub state: Option<OrderState>,
}

/// Conditions on orders.
#[derive(Debug)]
pub struct OrderFilter {
    pub do_order: bool,
    pub id: Option<OrderId>,
    pub created_from: Option<CartItemId>,
    pub conversion_id: Option<ConversionId>,
    pub slug: Option<OrderSlug>,
    pub customer: Option<UserId>,
    pub store: Option<StoreId>,
    pub product: Option<ProductId>,
    pub created_at: Option<Range<i128>>,
    pub updated_at: Option<Range<i128>>,
    pub state: Option<OrderState>,
    pub payment_status: Option<bool>,
    pub delivery_company: Option<Option<String>>,
    pub track_id: Option<Option<String>>,
}

/// An order filter without any condition and without ordering.
pub open spec fn is_empty_order_filter(f: OrderFilter) -> bool {
    &&& !f.do_order
    &&& f.id is None
    &&& f.created_from is None
    &&& f.conversion_id is None
    &&& f.slug is None
    &&& f.customer is None
    &&& f.store is None
    &&& f.product is None
    &&& f.created_at is None
    &&& f.updated_at is None
    &&& f.state is None
    &&& f.payment_status is None
    &&& f.delivery_company is None
    &&& f.track_id is None
}

impl Default for OrderFilter {
    /// No condition.
    fn default() -> (r: Self)
        ensures
            is_empty_order_filter(r),
    {
        OrderFilter {
            do_order: false,
            id: None,
            created_from: None,
            conversion_id: None,
            slug: None,
            customer: None,
            store: None,
            product: None,
            created_at: None,
            updated_at: None,
            state: None,
            payment_status: None,
            delivery_company: None,
            track_id: None,
        }
    }
}

pub open spec fn uuid_value<T>(o: Option<T>, f: spec_fn(T) -> u128) -> Option<FilterArg> {
    match o {
        Some(v) => Some(FilterArg::Value(SqlValue::Uuid(f(v)))),
        None => None,
    }
}

pub open spec fn int_value<T>(o: Option<T>, f: spec_fn(T) -> i32) -> Option<FilterArg> {
    match o {
        Some(v) => Some(FilterArg::Value(SqlValue::Int(f(v)))),
        None => None,
    }
}

pub open spec fn times_value(o: Option<Range<i128>>) -> Option<FilterArg> {
    match o {
        Some(v) => Some(FilterArg::Times(v)),
        None => None,
    }
}

pub open spec fn time_value(o: Option<i128>) -> Option<FilterArg> {
    match o {
        Some(v) => Some(FilterArg::Value(SqlValue::Time(v))),
        None => None,
    }
}

pub open spec fn state_value(o: Option<OrderState>) -> Option<FilterArg> {
    match o {
        Some(v) => Some(FilterArg::Value(SqlValue::State(v))),
        None => None,
    }
}

pub open spec fn bool_value(o: Option<bool>) -> Option<FilterArg> {
    match o {
        Some(v) => Some(FilterArg::Value(SqlValue::Bool(v))),
        None => None,
    }
}

pub open spec fn opt_text_value(o: Option<Option<String>>) -> Option<FilterArg> {
    match o {
        Some(v) => Some(FilterArg::Value(SqlValue::OptText(v))),
        None => None,
    }
}

/// The columns an order filter constrains, in order; `updated_at` is not
/// written.
pub open spec fn order_filter_columns(f: OrderFilter) -> Seq<Seq<char>> {
    Seq::empty() + if_present(f.id is Some, "id"@) + if_present(f.created_from is Some, "created_from"@) + if_present(
        f.conversion_id is Some,
        "conversion_id"@,
    ) + if_present(f.slug is Some, "slug"@) + if_present(f.customer is Some, "customer"@) + if_present(f.store is Some, "store"@)
        + if_present(f.product is Some, "product"@) + if_present(f.created_at is Some, "created_at"@) + if_present(
        f.state is Some,
        "state"@,
    ) + if_present(f.payment_status is Some, "payment_status"@) + if_present(f.delivery_company is Some, "delivery_company"@)
        + if_present(f.track_id is Some, "track_id"@)
}

/// The arguments of an order filter's conditions, in order.
pub open spec fn order_filter_args(f: OrderFilter) -> Seq<FilterArg> {
    Seq::empty() + opt_seq(uuid_value(f.id, |v: OrderId| v.0)) + opt_seq(
        uuid_value(f.created_from, |v: CartItemId| v.0),
    ) + opt_seq(uuid_value(f.conversion_id, |v: ConversionId| v.0)) + opt_seq(int_value(f.slug, |v: OrderSlug| v.0))
        + opt_seq(int_value(f.customer, |v: UserId| v.0)) + opt_seq(int_value(f.store, |v: StoreId| v.0)) + opt_seq(
        int_value(f.product, |v: ProductId| v.0),
    ) + opt_seq(times_value(f.created_at)) + opt_seq(state_value(f.state)) + opt_seq(bool_value(f.payment_status))
        + opt_seq(opt_text_value(f.delivery_company)) + opt_seq(opt_text_value(f.track_id))
}

/// The trailing clause of an ordered order statement.
pub open spec fn order_filter_extra(f: OrderFilter) -> Seq<char> {
    if f.do_order {
        "ORDER BY created_at DESC"@
    } else {
        Seq::empty()
    }
}

impl OrderFilter {
    /// The filter of one order: by its id or by its slug.
    pub open spec fn spec_from_identifier(v: OrderIdentifier) -> OrderFilter {
        let e = OrderFilter {
            do_order: false,
            id: None,
            created_from: None,
            conversion_id: None,
            slug: None,
            customer: None,
            store: None,
            product: None,
            created_at: None,
            updated_at: None,
            state: None,
            payment_status: None,
            delivery_company: None,
            track_id: None,
        };
        match v {
            OrderIdentifier::Id(id) => OrderFilter { id: Some(id), ..e },
            OrderIdentifier::Slug(slug) => OrderFilter { slug: Some(slug), ..e },
        }
    }

    /// The filter of one order.
    pub fn from_identifier(v: OrderIdentifier) -> (r: Self)
        ensures
            r == Self::spec_from_identifier(v),
    {
        let mut f = OrderFilter::default();
        match v {
            OrderIdentifier::Id(id) => {
                f.id = Some(id);
            },
            OrderIdentifier::Slug(slug) => {
                f.slug = Some(slug);
            },
        }
        f
    }

    /// Sets whether results come newest first.
    pub fn with_ordering(self, flag: bool) -> (r: Self)
        ensures
            r == (OrderFilter { do_order: flag, ..self }),
    {
        let mut f = self;
        f.do_order = flag;
        f
    }

    /// The filter of a search: slug, creation time between the given ends
    /// (inclusive), payment status, customer, store and state as given.
    pub fn from_search_terms(terms: OrderSearchTerms) -> (r: Result<Self, crate::errors::Error>)
        ensures
            r matches Ok(f) && f.slug == terms.slug && f.created_at == spec_into_range(terms.created_from, terms.created_to)
                && f.payment_status == terms.payment_status && f.customer == terms.customer && f.store == terms.store
                && f.state == terms.state && is_empty_order_filter(
                OrderFilter {
                    slug: None,
                    created_at: None,
                    payment_status: None,
                    customer: None,
                    store: None,
                    state: None,
                    ..f
                },
            ),
    {
        let mut mask = OrderFilter::default();
        mask.slug = terms.slug;
        mask.created_at = into_range(terms.created_from, terms.created_to);
        mask.payment_status = terms.payment_status;
        mask.customer = terms.customer;
        mask.store = terms.store;
        mask.state = terms.state;
        Ok(mask)
    }

    /// The statement on `table` with this filter's conditions.
    #[verifier::rlimit(60)]
    #[verifier::spinoff_prover]
    pub fn into_filtered_operation_builder(self, op: FilteredOperation, table: &str) -> (r: FilteredOperationBuilder<FilterArg>)
        ensures
            r.wf(),
            r.op() == op,
            r.table() == table@,
            r.columns() == order_filter_columns(self),
            r.args() == order_filter_args(self),
            r.extra() == order_filter_extra(self),
    {
        let ghost f = self;
        let b0 = FilteredOperationBuilder::new(op, table);
        let a = match self.id { Some(v) => Some(FilterArg::Value(SqlValue::Uuid(v.0))), None => None };
        let b = with_opt_arg(b0, "id", a);
        let a = match self.created_from { Some(v) => Some(FilterArg::Value(SqlValue::Uuid(v.0))), None => None };
        let b = with_opt_arg(b, "created_from", a);
        let a = match self.conversion_id { Some(v) => Some(FilterArg::Value(SqlValue::Uuid(v.0))), None => None };
        let b = with_opt_arg(b, "conversion_id", a);
        let a = match self.slug { Some(v) => Some(FilterArg::Value(SqlValue::Int(v.0))), None => None };
        let b = with_opt_arg(b, "slug", a);
        let a = match self.customer { Some(v) => Some(FilterArg::Value(SqlValue::Int(v.0))), None => None };
        let b = with_opt_arg(b, "customer", a);
        let a = match self.store { Some(v) => Some(FilterArg::Value(SqlValue::Int(v.0))), None => None };
        let b = with_opt_arg(b, "store", a);
        let a = match self.product { Some(v) => Some(FilterArg::Value(SqlValue::Int(v.0))), None => None };
        let b = with_opt_arg(b, "product", a);
        let a = match self.created_at { Some(v) => Some(FilterArg::Times(v)), None => None };
        let b = with_opt_arg(b, "created_at", a);
        let a = match self.state { Some(v) => Some(FilterArg::Value(SqlValue::State(v))), None => None };
        let b = with_opt_arg(b, "state", a);
        let a = match self.payment_status { Some(v) => Some(FilterArg::Value(SqlValue::Bool(v))), None => None };
        let b = with_opt_arg(b, "payment_status", a);
        let a = match self.delivery_company { Some(v) => Some(FilterArg::Value(SqlValue::OptText(v))), None => None };
        let b = with_opt_arg(b, "delivery_company", a);
        let a = match self.track_id { Some(v) => Some(FilterArg::Value(SqlValue::OptText(v))), None => None };
        let b = with_opt_arg(b, "track_id", a);
        if self.do_order {
            b.with_extra("ORDER BY created_at DESC")
        } else {
            b
        }
    }
}

/// Conditions on order history records.
#[derive(Debug)]
pub struct OrderDiffFilter {
    pub do_order: bool,
    pub id: Option<OrderDiffId>,
    pub parent: Option<OrderId>,
    pub committer: Option<UserId>,
    pub committed_at: Option<i128>,
    pub committed_at_range: Option<Range<i128>>,
    pub state: Option<OrderState>,
    pub comment: Option<Option<String>>,
}

pub open spec fn is_empty_diff_filter(f: OrderDiffFilter) -> bool {
    &&& !f.do_order
    &&& f.id is None
    &&& f.parent is None
    &&& f.committer is None
    &&& f.committed_at is None
    &&& f.committed_at_range is None
    &&& f.state is None
    &&& f.comment is None
}

impl Default for OrderDiffFilter {
    /// No condition.
    fn default() -> (r: Self)
        ensures
            is_empty_diff_filter(r),
    {
        OrderDiffFilter {
            do_order: false,
            id: None,
            parent: None,
            committer: None,
            committed_at: None,
            committed_at_range: None,
            state: None,
            comment: None,
        }
    }
}

/// The columns a history filter constrains, in order.
pub open spec fn diff_filter_columns(f: OrderDiffFilter) -> Seq<Seq<char>> {
    Seq::empty() + if_present(f.id is Some, "id"@) + if_present(f.parent is Some, "parent"@) + if_present(f.committer is Some, "committer"@)
        + if_present(f.committed_at is Some, "committed_at"@) + if_present(f.committed_at_range is Some, "committed_at"@) + if_present(
        f.state is Some,
        "state"@,
    ) + if_present(f.comment is Some, "comment"@)
}

/// The arguments of a history filter's conditions, in order.
pub open spec fn diff_filter_args(f: OrderDiffFilter) -> Seq<FilterArg> {
    Seq::empty() + opt_seq(uuid_value(f.id, |v: OrderDiffId| v.0)) + opt_seq(uuid_value(f.parent, |v: OrderId| v.0))
        + opt_seq(int_value(f.committer, |v: UserId| v.0)) + opt_seq(time_value(f.committed_at)) + opt_seq(
        times_value(f.committed_at_range),
    ) + opt_seq(state_value(f.state)) + opt_seq(opt_text_value(f.comment))
}

/// Whether a point in time is among the values of a range.
pub open spec fn time_in_range(r: Range<i128>, t: i128) -> bool {
    match r {
        Range::Exact(v) => t == v,
        Range::In(vs) => vs@.contains(t),
        Range::From(l) => if l.inclusive {
            t >= l.value
        } else {
            t > l.value
        },
        Range::To(l) => if l.inclusive {
            t <= l.value
        } else {
            t < l.value
        },
        Range::Between((a, b)) => (if a.inclusive {
            t >= a.value
        } else {
            t > a.value
        }) && (if b.inclusive {
            t <= b.value
        } else {
            t < b.value
        }),
    }
}

/// Whether a history record meets one condition of a statement: its value
/// in the column compared with the argument (a range argument accepts the
/// values in the range). A condition on any other column, or with an
/// argument of another kind, selects nothing.
pub open spec fn diff_condition_holds(column: Seq<char>, arg: FilterArg, d: OrderDiff) -> bool {
    if column == "id"@ {
        arg matches FilterArg::Value(SqlValue::Uuid(v)) && d.id.0 == v
    } else if column == "parent"@ {
        arg matches FilterArg::Value(SqlValue::Uuid(v)) && d.parent.0 == v
    } else if column == "committer"@ {
        arg matches FilterArg::Value(SqlValue::Int(v)) && d.committer.0 == v
    } else if column == "committed_at"@ {
        match arg {
            FilterArg::Value(SqlValue::Time(t)) => d.committed_at == t,
            FilterArg::Times(r) => time_in_range(r, d.committed_at),
            _ => false,
        }
    } else if column == "state"@ {
        arg matches FilterArg::Value(SqlValue::State(st)) && d.state == st
    } else if column == "comment"@ {
        arg matches FilterArg::Value(SqlValue::OptText(c)) && d.comment == c
    } else {
        false
    }
}

/// Whether a history record meets every condition of a statement.
pub open spec fn diff_statement_selects(columns: Seq<Seq<char>>, args: Seq<FilterArg>, d: OrderDiff) -> bool {
    forall|i: int| 0 <= i < columns.len() ==> diff_condition_holds(#[trigger] columns[i], args[i], d)
}

proof fn lemma_selects_concat(c1: Seq<Seq<char>>, a1: Seq<FilterArg>, c2: Seq<Seq<char>>, a2: Seq<FilterArg>, d: OrderDiff)
    requires
        c1.len() == a1.len(),
        c2.len() == a2.len(),
    ensures
        diff_statement_selects(c1 + c2, a1 + a2, d) <==> (diff_statement_selects(c1, a1, d) && diff_statement_selects(
            c2,
            a2,
            d,
        )),
{
    let c = c1 + c2;
    let a = a1 + a2;
    if diff_statement_selects(c, a, d) {
        assert forall|i: int| 0 <= i < c1.len() implies diff_condition_holds(#[trigger] c1[i], a1[i], d) by {
            assert(c[i] == c1[i] && a[i] == a1[i]);
        }
        assert forall|i: int| 0 <= i < c2.len() implies diff_condition_holds(#[trigger] c2[i], a2[i], d) by {
            assert(c[i + c1.len()] == c2[i] && a[i + c1.len()] == a2[i]);
        }
    }
    if diff_statement_selects(c1, a1, d) && diff_statement_selects(c2, a2, d) {
        assert forall|i: int| 0 <= i < c.len() implies diff_condition_holds(#[trigger] c[i], a[i], d) by {
            if i < c1.len() {
                assert(c[i] == c1[i] && a[i] == a1[i]);
            } else {
                assert(c[i] == c2[i - c1.len()] && a[i] == a2[i - c1.len()]);
            }
        }
    }
}

proof fn lemma_selects_one(b: bool, column: Seq<char>, arg: Option<FilterArg>, d: OrderDiff)
    requires
        b == arg is Some,
    ensures
        if_present(b, column).len() == opt_seq(arg).len(),
        diff_statement_selects(if_present(b, column), opt_seq(arg), d) <==> (arg matches Some(x) ==> diff_condition_holds(
            column,
            x,
            d,
        )),
{
    if b {
        assert(if_present(b, column)[0] == column);
    }
}

/// A history statement selects exactly the records that meet every
/// condition of its filter: the id, the order, the committer, the time of
/// the commit (a single point, or a range where the record's time must
/// lie), the state and the comment, each where the filter sets it.
pub proof fn law_history_statement_selects_what_the_filter_says(f: OrderDiffFilter, d: OrderDiff)
    ensures
        diff_statement_selects(diff_filter_columns(f), diff_filter_args(f), d) <==> {
            &&& (f.id matches Some(i) ==> d.id == i)
            &&& (f.parent matches Some(p) ==> d.parent == p)
            &&& (f.committer matches Some(u) ==> d.committer == u)
            &&& (f.committed_at matches Some(t) ==> d.committed_at == t)
            &&& (f.committed_at_range matches Some(r) ==> time_in_range(r, d.committed_at))
            &&& (f.state matches Some(st) ==> d.state == st)
            &&& (f.comment matches Some(c) ==> d.comment == c)
        },
{
    reveal_strlit("id");
    reveal_strlit("parent");
    reveal_strlit("committer");
    reveal_strlit("committed_at");
    reveal_strlit("state");
    reveal_strlit("comment");
    // The column names differ in length, so no two of them are equal.
    assert("id"@.len() == 2 && "parent"@.len() == 6 && "committer"@.len() == 9 && "committed_at"@.len() == 12
        && "state"@.len() == 5 && "comment"@.len() == 7);
    let c0 = Seq::<Seq<char>>::empty();
    let a0 = Seq::<FilterArg>::empty();
    let c1 = if_present(f.id is Some, "id"@);
    let a1 = opt_seq(uuid_value(f.id, |v: OrderDiffId| v.0));
    let c2 = if_present(f.parent is Some, "parent"@);
    let a2 = opt_seq(uuid_value(f.parent, |v: OrderId| v.0));
    let c3 = if_present(f.committer is Some, "committer"@);
    let a3 = opt_seq(int_value(f.committer, |v: UserId| v.0));
    let c4 = if_present(f.committed_at is Some, "committed_at"@);
    let a4 = opt_seq(time_value(f.committed_at));
    let c5 = if_present(f.committed_at_range is Some, "committed_at"@);
    let a5 = opt_seq(times_value(f.committed_at_range));
    let c6 = if_present(f.state is Some, "state"@);
    let a6 = opt_seq(state_value(f.state));
    let c7 = if_present(f.comment is Some, "comment"@);
    let a7 = opt_seq(opt_text_value(f.comment));
    lemma_selects_one(f.id is Some, "id"@, uuid_value(f.id, |v: OrderDiffId| v.0), d);
    lemma_selects_one(f.parent is Some, "parent"@, uuid_value(f.parent, |v: OrderId| v.0), d);
    lemma_selects_one(f.committer is Some, "committer"@, int_value(f.committer, |v: UserId| v.0), d);
    lemma_selects_one(f.committed_at is Some, "committed_at"@, time_value(f.committed_at), d);
    lemma_selects_one(f.committed_at_range is Some, "committed_at"@, times_value(f.committed_at_range), d);
    lemma_selects_one(f.state is Some, "state"@, state_value(f.state), d);
    lemma_selects_one(f.comment is Some, "comment"@, opt_text_value(f.comment), d);
    lemma_selects_concat(c0, a0, c1, a1, d);
    lemma_selects_concat(c0 + c1, a0 + a1, c2, a2, d);
    lemma_selects_concat(c0 + c1 + c2, a0 + a1 + a2, c3, a3, d);
    lemma_selects_concat(c0 + c1 + c2 + c3, a0 + a1 + a2 + a3, c4, a4, d);
    lemma_selects_concat(c0 + c1 + c2 + c3 + c4, a0 + a1 + a2 + a3 + a4, c5, a5, d);
    lemma_selects_concat(c0 + c1 + c2 + c3 + c4 + c5, a0 + a1 + a2 + a3 + a4 + a5, c6, a6, d);
    lemma_selects_concat(c0 + c1 + c2 + c3 + c4 + c5 + c6, a0 + a1 + a2 + a3 + a4 + a5 + a6, c7, a7, d);
    assert(diff_statement_selects(c0, a0, d));
    assert(diff_statement_selects(c1, a1, d) <==> (f.id matches Some(i) ==> d.id == i));
    assert(diff_statement_selects(c2, a2, d) <==> (f.parent matches Some(p) ==> d.parent == p));
    assert(diff_statement_selects(c3, a3, d) <==> (f.committer matches Some(u) ==> d.committer == u));
    assert(diff_statement_selects(c4, a4, d) <==> (f.committed_at matches Some(t) ==> d.committed_at == t));
    assert(diff_statement_selects(c5, a5, d) <==> (f.committed_at_range matches Some(r) ==> time_in_range(r, d.committed_at)));
    assert(diff_statement_selects(c6, a6, d) <==> (f.state matches Some(st) ==> d.state == st));
    assert(diff_statement_selects(c7, a7, d) <==> (f.comment matches Some(c) ==> d.comment == c));
    assert(diff_filter_columns(f) == c0 + c1 + c2 + c3 + c4 + c5 + c6 + c7);
    assert(diff_filter_args(f) == a0 + a1 + a2 + a3 + a4 + a5 + a6 + a7);
}

impl OrderDiffFilter {
    /// The filter of the history of one order.
    pub fn from_parent(v: OrderId) -> (r: Self)
        ensures
            r.parent == Some(v),
            is_empty_diff_filter(OrderDiffFilter { parent: None, ..r }),
    {
        let mut f = OrderDiffFilter::default();
        f.parent = Some(v);
        f
    }

    /// Sets whether results come newest first.
    pub fn with_ordering(self, flag: bool) -> (r: Self)
        ensures
            r == (OrderDiffFilter { do_order: flag, ..self }),
    {
        let mut f = self;
        f.do_order = flag;
        f
    }

    /// The statement on `table` with this filter's conditions.
    pub fn into_filtered_operation_builder(self, op: FilteredOperation, table: &str) -> (r: FilteredOperationBuilder<FilterArg>)
        ensures
            r.wf(),
            r.op() == op,
            r.table() == table@,
            r.columns() == diff_filter_columns(self),
            r.args() == diff_filter_args(self),
            r.extra() == (if self.do_order {
                "ORDER BY committed_at DESC"@
            } else {
                Seq::<char>::empty()
            }),
    {
        let b0 = FilteredOperationBuilder::new(op, table);
        let a = match self.id { Some(v) => Some(FilterArg::Value(SqlValue::Uuid(v.0))), None => None };
        let b = with_opt_arg(b0, "id", a);
        let a = match self.parent { Some(v) => Some(FilterArg::Value(SqlValue::Uuid(v.0))), None => None };
        let b = with_opt_arg(b, "parent", a);
        let a = match self.committer { Some(v) => Some(FilterArg::Value(SqlValue::Int(v.0))), None => None };
        let b = with_opt_arg(b, "committer", a);
        let a = match self.committed_at { Some(v) => Some(FilterArg::Value(SqlValue::Time(v))), None => None };
        let b = with_opt_arg(b, "committed_at", a);
        let a = match self.committed_at_range { Some(v) => Some(FilterArg::Times(v)), None => None };
        let b = with_opt_arg(b, "committed_at", a);
        let a = match self.state { Some(v) => Some(FilterArg::Value(SqlValue::State(v))), None => None };
        let b = with_opt_arg(b, "state", a);
        let a = match self.comment { Some(v) => Some(FilterArg::Value(SqlValue::OptText(v))), None => None };
        let b = with_opt_arg(b, "comment", a);
        if self.do_order {
            b.with_extra("ORDER BY committed_at DESC")
        } else {
            b
        }
    }
}

/// New values for orders.
#[derive(Debug)]
pub struct OrderUpdateData {
    pub state: Option<OrderState>,
    pub track_id: Option<String>,
}

/// An update of the orders that `mask` selects.
#[derive(Debug)]
pub struct OrderUpdater {
    pub mask: OrderFilter,
    pub data: OrderUpdateData,
}

impl OrderUpdater {
    /// The update on `table`: the state and the track id, where given.
    pub fn into_update_builder(self, table: &str) -> (r: UpdateBuilder<FilterArg, SqlValue>)
        ensures
            r.wf(),
            r.filter().table() == table@,
            r.filter().columns() == order_filter_columns(self.mask),
            r.filter().args() == order_filter_args(self.mask),
            r.columns() == if_present(self.data.state is Some, "state"@) + if_present(self.data.track_id is Some, "track_id"@),
            r.values() == opt_seq(
                match self.data.state {
                    Some(s) => Some(SqlValue::State(s)),
                    None => None,
                },
            ) + opt_seq(
                match self.data.track_id {
                    Some(t) => Some(SqlValue::Text(t)),
                    None => None,
                },
            ),
    {
        let OrderUpdater { mask, data } = self;
        let f = mask.into_filtered_operation_builder(FilteredOperation::Select, table);
        let b = UpdateBuilder::from_filter(f);
        let b = match data.state {
            Some(state) => b.with_value("state", SqlValue::State(state)),
            None => b,
        };
        let b = match data.track_id {
            Some(track_id) => b.with_value("track_id", SqlValue::Text(track_id)),
            None => b,
        };
        assert(b.columns() =~= if_present(data.state is Some, "state"@) + if_present(data.track_id is Some, "track_id"@));
        assert(b.values() =~= opt_seq(
            match data.state {
                Some(s) => Some(SqlValue::State(s)),
                None => None,
            },
        ) + opt_seq(
            match data.track_id {
                Some(t) => Some(SqlValue::Text(t)),
                None => None,
            },
        ));
        b
    }
}

/// A new record of an order's history.
#[derive(Debug)]
pub struct OrderDiffInserter {
    pub parent: OrderId,
    pub committer: UserId,
    pub committed_at: i128,
    pub state: OrderState,
    pub comment: Option<String>,
}

impl OrderDiffInserter {
    /// The insert of the record into `table`.
    pub fn into_insert_builder(self, table: &str) -> (r: InsertBuilder<SqlValue>)
        ensures
            r.wf(),
            r.table() == table@,
            r.extra() == Seq::<char>::empty(),
            r.columns() == seq!["parent"@, "committer"@, "committed_at"@, "state"@, "comment"@],
            r.values() == seq![
                SqlValue::Uuid(self.parent.0),
                SqlValue::Int(self.committer.0),
                SqlValue::Time(self.committed_at),
                SqlValue::State(self.state),
                SqlValue::OptText(self.comment),
            ],
    {
        let b = InsertBuilder::new(table)
            .with_arg("parent", SqlValue::Uuid(self.parent.0))
            .with_arg("committer", SqlValue::Int(self.committer.0))
            .with_arg("committed_at", SqlValue::Time(self.committed_at))
            .with_arg("state", SqlValue::State(self.state))
            .with_arg("comment", SqlValue::OptText(self.comment));
        assert(b.columns() =~= seq!["parent"@, "committer"@, "committed_at"@, "state"@, "comment"@]);
        b
    }
}

/// A full address of delivery. The location is a geographic point, held as
/// the bit patterns of its coordinates.
#[derive(Debug)]
pub struct AddressFull {
    pub location: Option<(u64, u64)>,
    pub administrative_area_level_1: Option<String>,
    pub administrative_area_level_2: Option<String>,
    pub country: Option<String>,
    pub locality: Option<String>,
    pub political: Option<String>,
    pub postal_code: Option<String>,
    pub route: Option<String>,
    pub street_number: Option<String>,
    pub address: Option<String>,
    pub place_id: Option<String>,
}

/// The columns that an address writes: those of its present parts, in order.
pub open spec fn address_columns(a: AddressFull) -> Seq<Seq<char>> {
    if_present(a.location is Some, "location"@) + if_present(
        a.administrative_area_level_1 is Some,
        "administrative_area_level_1"@,
    ) + if_present(a.administrative_area_level_2 is Some, "administrative_area_level_2"@) + if_present(
        a.country is Some,
        "country"@,
    ) + if_present(a.locality is Some, "locality"@) + if_present(a.political is Some, "political"@) + if_present(
        a.postal_code is Some,
        "postal_code"@,
    ) + if_present(a.route is Some, "route"@) + if_present(a.street_number is Some, "street_number"@) + if_present(
        a.address is Some,
        "address"@,
    ) + if_present(a.place_id is Some, "place_id"@)
}

pub open spec fn text_value(o: Option<String>) -> Option<SqlValue> {
    match o {
        Some(t) => Some(SqlValue::Text(t)),
        None => None,
    }
}

pub open spec fn point_value(o: Option<(u64, u64)>) -> Option<SqlValue> {
    match o {
        Some(p) => Some(SqlValue::Point(p.0, p.1)),
        None => None,
    }
}

/// The values that an address writes, column by column.
pub open spec fn address_values(a: AddressFull) -> Seq<SqlValue> {
    opt_seq(point_value(a.location)) + opt_seq(text_value(a.administrative_area_level_1)) + opt_seq(
        text_value(a.administrative_area_level_2),
    ) + opt_seq(text_value(a.country)) + opt_seq(text_value(a.locality)) + opt_seq(text_value(a.political))
        + opt_seq(text_value(a.postal_code)) + opt_seq(text_value(a.route)) + opt_seq(text_value(a.street_number))
        + opt_seq(text_value(a.address)) + opt_seq(text_value(a.place_id))
}

/// `r` is `b` with more columns and values appended.
pub open spec fn insert_extended(
    r: InsertBuilder<SqlValue>,
    b: InsertBuilder<SqlValue>,
    columns: Seq<Seq<char>>,
    values: Seq<SqlValue>,
) -> bool {
    &&& r.wf()
    &&& r.table() == b.table()
    &&& r.extra() == b.extra()
    &&& r.columns() == b.columns() + columns
    &&& r.values() == b.values() + values
}

/// Appends a column when `value` is present.
pub fn with_opt_value(b: InsertBuilder<SqlValue>, column: &str, value: Option<SqlValue>) -> (r: InsertBuilder<SqlValue>)
    requires
        b.wf(),
    ensures
        insert_extended(r, b, if_present(value is Some, column@), opt_seq(value)),
{
    match value {
        Some(v) => {
            let r = b.with_arg(column, v);
            assert(r.columns() =~= b.columns() + seq![column@]);
            assert(r.values() =~= b.values() + seq![v]);
            r
        },
        None => {
            assert(b.columns() =~= b.columns() + Seq::<Seq<char>>::empty());
            assert(b.values() =~= b.values() + Seq::<SqlValue>::empty());
            b
        },
    }
}

fn text_arg_of(o: Option<String>) -> (r: Option<SqlValue>)
    ensures
        r == text_value(o),
{
    match o {
        Some(t) => Some(SqlValue::Text(t)),
        None => None,
    }
}

/// Appends the present parts of an address to an insert, in order.
#[verifier::rlimit(40)]
pub fn write_address_into_inserter(addr: AddressFull, b: InsertBuilder<SqlValue>) -> (r: InsertBuilder<SqlValue>)
    requires
        b.wf(),
    ensures
        insert_extended(r, b, address_columns(addr), address_values(addr)),
{
    let ghost a = addr;
    let p = match addr.location {
        Some(pt) => Some(SqlValue::Point(pt.0, pt.1)),
        None => None,
    };
    let b1 = with_opt_value(b, "location", p);
    let b2 = with_opt_value(b1, "administrative_area_level_1", text_arg_of(addr.administrative_area_level_1));
    let b3 = with_opt_value(b2, "administrative_area_level_2", text_arg_of(addr.administrative_area_level_2));
    let b4 = with_opt_value(b3, "country", text_arg_of(addr.country));
    let b5 = with_opt_value(b4, "locality", text_arg_of(addr.locality));
    let b6 = with_opt_value(b5, "political", text_arg_of(addr.political));
    let b7 = with_opt_value(b6, "postal_code", text_arg_of(addr.postal_code));
    let b8 = with_opt_value(b7, "route", text_arg_of(addr.route));
    let b9 = with_opt_value(b8, "street_number", text_arg_of(addr.street_number));
    let b10 = with_opt_value(b9, "address", text_arg_of(addr.address));
    let b11 = with_opt_value(b10, "place_id", text_arg_of(addr.place_id));
    proof {
        let c0 = if_present(a.location is Some, "location"@);
        let c1 = if_present(a.administrative_area_level_1 is Some, "administrative_area_level_1"@);
        let c2 = if_present(a.administrative_area_level_2 is Some, "administrative_area_level_2"@);
        let c3 = if_present(a.country is Some, "country"@);
        let c4 = if_present(a.locality is Some, "locality"@);
        let c5 = if_present(a.political is Some, "political"@);
        let c6 = if_present(a.postal_code is Some, "postal_code"@);
        let c7 = if_present(a.route is Some, "route"@);
        let c8 = if_present(a.street_number is Some, "street_number"@);
        let c9 = if_present(a.address is Some, "address"@);
        let c10 = if_present(a.place_id is Some, "place_id"@);
        let bc = b.columns();
        lemma_concat_associative(bc, c0, c1);
        lemma_concat_associative(bc, c0 + c1, c2);
        lemma_concat_associative(bc, c0 + c1 + c2, c3);
        lemma_concat_associative(bc, c0 + c1 + c2 + c3, c4);
        lemma_concat_associative(bc, c0 + c1 + c2 + c3 + c4, c5);
        lemma_concat_associative(bc, c0 + c1 + c2 + c3 + c4 + c5, c6);
        lemma_concat_associative(bc, c0 + c1 + c2 + c3 + c4 + c5 + c6, c7);
        lemma_concat_associative(bc, c0 + c1 + c2 + c3 + c4 + c5 + c6 + c7, c8);
        lemma_concat_associative(bc, c0 + c1 + c2 + c3 + c4 + c5 + c6 + c7 + c8, c9);
        lemma_concat_associative(bc, c0 + c1 + c2 + c3 + c4 + c5 + c6 + c7 + c8 + c9, c10);
        let v0 = opt_seq(point_value(a.location));
        let v1 = opt_seq(text_value(a.administrative_area_level_1));
        let v2 = opt_seq(text_value(a.administrative_area_level_2));
        let v3 = opt_seq(text_value(a.country));
        let v4 = opt_seq(text_value(a.locality));
        let v5 = opt_seq(text_value(a.political));
        let v6 = opt_seq(text_value(a.postal_code));
        let v7 = opt_seq(text_value(a.route));
        let v8 = opt_seq(text_value(a.street_number));
        let v9 = opt_seq(text_value(a.address));
        let v10 = opt_seq(text_value(a.place_id));
        let bv = b.values();
        lemma_concat_associative(bv, v0, v1);
        lemma_concat_associative(bv, v0 + v1, v2);
        lemma_concat_associative(bv, v0 + v1 + v2, v3);
        lemma_concat_associative(bv, v0 + v1 + v2 + v3, v4);
        lemma_concat_associative(bv, v0 + v1 + v2 + v3 + v4, v5);
        lemma_concat_associative(bv, v0 + v1 + v2 + v3 + v4 + v5, v6);
        lemma_concat_associative(bv, v0 + v1 + v2 + v3 + v4 + v5 + v6, v7);
        lemma_concat_associative(bv, v0 + v1 + v2 + v3 + v4 + v5 + v6 + v7, v8);
        lemma_concat_associative(bv, v0 + v1 + v2 + v3 + v4 + v5 + v6 + v7 + v8, v9);
        lemma_concat_associative(bv, v0 + v1 + v2 + v3 + v4 + v5 + v6 + v7 + v8 + v9, v10);
    }
    b11
}

/// A new order as it is written: its price held as the bit pattern of its
/// double precision value.
#[derive(Debug)]
pub struct OrderInserter {
    pub id: Option<OrderId>,
    pub created_from: Option<CartItemId>,
    pub conversion_id: Option<ConversionId>,
    pub customer: UserId,
    pub store: StoreId,
    pub product: ProductId,
    pub price: u64,
    pub currency_id: i32,
    pub quantity: Quantity,
    pub address: AddressFull,
    pub receiver_name: String,
    pub receiver_phone: String,
    pub delivery_company: Option<String>,
    pub state: OrderState,
    pub track_id: Option<String>,
}

/// The columns that every new order writes, in order.
pub open spec fn order_fixed_columns() -> Seq<Seq<char>> {
    seq![
        "customer"@,
        "store"@,
        "product"@,
        "receiver_name"@,
        "receiver_phone"@,
        "price"@,
        "currency_id"@,
        "quantity"@,
        "state"@,
    ]
}

/// The values of the columns that every new order writes.
pub open spec fn order_fixed_values(o: OrderInserter) -> Seq<SqlValue> {
    seq![
        SqlValue::Int(o.customer.0),
        SqlValue::Int(o.store.0),
        SqlValue::Int(o.product.0),
        SqlValue::Text(o.receiver_name),
        SqlValue::Text(o.receiver_phone),
        SqlValue::Price(o.price),
        SqlValue::Int(o.currency_id),
        SqlValue::Int(o.quantity.0),
        SqlValue::State(o.state),
    ]
}

/// The columns of the optional parts of a new order, in order; the
/// delivery company is not written.
pub open spec fn order_optional_columns(o: OrderInserter) -> Seq<Seq<char>> {
    if_present(o.id is Some, "id"@) + if_present(o.created_from is Some, "created_from"@) + if_present(
        o.conversion_id is Some,
        "conversion_id"@,
    ) + if_present(o.track_id is Some, "track_id"@)
}

pub open spec fn uuid_of(o: Option<u128>) -> Option<SqlValue> {
    match o {
        Some(v) => Some(SqlValue::Uuid(v)),
        None => None,
    }
}

/// The values of the optional parts of a new order.
pub open spec fn order_optional_values(o: OrderInserter) -> Seq<SqlValue> {
    opt_seq(
        uuid_of(
            match o.id {
                Some(v) => Some(v.0),
                None => None,
            },
        ),
    ) + opt_seq(
        uuid_of(
            match o.created_from {
                Some(v) => Some(v.0),
                None => None,
            },
        ),
    ) + opt_seq(
        uuid_of(
            match o.conversion_id {
                Some(v) => Some(v.0),
                None => None,
            },
        ),
    ) + opt_seq(text_value(o.track_id))
}

impl OrderInserter {
    /// The insert of the order into `table`: the fixed columns, the parts of
    /// the address, then the optional ids and the track id.
    #[verifier::rlimit(40)]
    pub fn into_insert_builder(self, table: &str) -> (r: InsertBuilder<SqlValue>)
        ensures
            r.wf(),
            r.table() == table@,
            r.extra() == Seq::<char>::empty(),
            r.columns() == order_fixed_columns() + address_columns(self.address) + order_optional_columns(self),
            r.values() == order_fixed_values(self) + address_values(self.address) + order_optional_values(self),
    {
        let ghost o = self;
        let b = InsertBuilder::new(table)
            .with_arg("customer", SqlValue::Int(self.customer.0))
            .with_arg("store", SqlValue::Int(self.store.0))
            .with_arg("product", SqlValue::Int(self.product.0))
            .with_arg("receiver_name", SqlValue::Text(self.receiver_name))
            .with_arg("receiver_phone", SqlValue::Text(self.receiver_phone))
            .with_arg("price", SqlValue::Price(self.price))
            .with_arg("currency_id", SqlValue::Int(self.currency_id))
            .with_arg("quantity", SqlValue::Int(self.quantity.0))
            .with_arg("state", SqlValue::State(self.state));
        assert(b.columns() =~= order_fixed_columns());
        assert(b.values() =~= order_fixed_values(o));
        let b = write_address_into_inserter(self.address, b);
        let ghost ba = b;
        let v = match self.id {
            Some(v) => Some(SqlValue::Uuid(v.0)),
            None => None,
        };
        let b1 = with_opt_value(b, "id", v);
        let v = match self.created_from {
            Some(v) => Some(SqlValue::Uuid(v.0)),
            None => None,
        };
        let b2 = with_opt_value(b1, "created_from", v);
        let v = match self.conversion_id {
            Some(v) => Some(SqlValue::Uuid(v.0)),
            None => None,
        };
        let b3 = with_opt_value(b2, "conversion_id", v);
        let b4 = with_opt_value(b3, "track_id", text_arg_of(self.track_id));
        proof {
            let c0 = if_present(o.id is Some, "id"@);
            let c1 = if_present(o.created_from is Some, "created_from"@);
            let c2 = if_present(o.conversion_id is Some, "conversion_id"@);
            let c3 = if_present(o.track_id is Some, "track_id"@);
            lemma_concat_associative(ba.columns(), c0, c1);
            lemma_concat_associative(ba.columns(), c0 + c1, c2);
            lemma_concat_associative(ba.columns(), c0 + c1 + c2, c3);
            let v0 = opt_seq(uuid_of(match o.id { Some(v) => Some(v.0), None => None }));
            let v1 = opt_seq(uuid_of(match o.created_from { Some(v) => Some(v.0), None => None }));
            let v2 = opt_seq(uuid_of(match o.conversion_id { Some(v) => Some(v.0), None => None }));
            let v3 = opt_seq(text_value(o.track_id));
            lemma_concat_associative(ba.values(), v0, v1);
            lemma_concat_associative(ba.values(), v0 + v1, v2);
            lemma_concat_associative(ba.values(), v0 + v1 + v2, v3);
        }
        b4
    }
}

} // verus!
