//! Cart entries, their storage rows and the statements that read and write
//! them. Entries of registered users and of anonymous sessions live in two
//! tables.

use vstd::prelude::*;

use crate::sql::{FilterArg, Range, SqlValue};
use crate::types::{
    new_uuid, CartCustomer, CartItemId, CouponId, DeliveryMethodId, ProductId, Quantity, SessionId,
    StoreId, UserId,
};
use crate::util::{FilteredOperation, FilteredOperationBuilder, InsertBuilder, UpdateBuilder};
use vstd::seq_lib::lemma_concat_associative;

verus! {

/// `seq![x]` when `present`, else the empty sequence.
pub open spec fn if_present<T>(present: bool, x: T) -> Seq<T> {
    if present {
        seq![x]
    } else {
        Seq::empty()
    }
}

/// Per-entry data of a cart.
#[derive(Debug)]
pub struct CartItemInfo {
    pub quantity: Quantity,
    pub selected: bool,
    pub comment: String,
    pub store_id: StoreId,
}

/// One product in a customer's cart.
#[derive(Debug)]
pub struct CartItem {
    pub id: CartItemId,
    pub customer: CartCustomer,
    pub product_id: ProductId,
    pub quantity: Quantity,
    pub selected: bool,
    pub comment: String,
    pub store_id: StoreId,
    pub pre_order: bool,
    pub pre_order_days: i32,
    pub coupon_id: Option<CouponId>,
    pub delivery_method_id: Option<DeliveryMethodId>,
}

impl CartItem {
    /// The product of the entry with its per-entry data.
    pub fn into_meta(self) -> (r: (ProductId, CartItemInfo))
        ensures
            r.0 == self.product_id,
            r.1.quantity == self.quantity,
            r.1.selected == self.selected,
            r.1.comment == self.comment,
            r.1.store_id == self.store_id,
    {
        (
            self.product_id,
            CartItemInfo {
                quantity: self.quantity,
                selected: self.selected,
                comment: self.comment,
                store_id: self.store_id,
            },
        )
    }
}

/// A cart entry of a registered user, as stored.
#[derive(Debug)]
pub struct CartItemUser {
    pub id: CartItemId,
    pub user_id: UserId,
    pub product_id: ProductId,
    pub quantity: Quantity,
    pub selected: bool,
    pub comment: String,
    pub store_id: StoreId,
    pub pre_order: bool,
    pub pre_order_days: i32,
    pub coupon_id: Option<CouponId>,
    pub delivery_method_id: Option<DeliveryMethodId>,
}

/// A cart entry of an anonymous session, as stored.
#[derive(Debug)]
pub struct CartItemSession {
    pub id: CartItemId,
    pub session_id: SessionId,
    pub product_id: ProductId,
    pub quantity: Quantity,
    pub selected: bool,
    pub comment: String,
    pub store_id: StoreId,
    pub pre_order: bool,
    pub pre_order_days: i32,
    pub coupon_id: Option<CouponId>,
    pub delivery_method_id: Option<DeliveryMethodId>,
}

/// A stored user entry as a cart item of its user.
pub open spec fn user_cart_item(e: CartItemUser) -> CartItem {
    CartItem {
        id: e.id,
        customer: CartCustomer::User(e.user_id),
        product_id: e.product_id,
        quantity: e.quantity,
        selected: e.selected,
        comment: e.comment,
        store_id: e.store_id,
        pre_order: e.pre_order,
        pre_order_days: e.pre_order_days,
        coupon_id: e.coupon_id,
        delivery_method_id: e.delivery_method_id,
    }
}

/// A stored session entry as a cart item of its session.
pub open spec fn session_cart_item(e: CartItemSession) -> CartItem {
    CartItem {
        id: e.id,
        customer: CartCustomer::Anonymous(e.session_id),
        product_id: e.product_id,
        quantity: e.quantity,
        selected: e.selected,
        comment: e.comment,
        store_id: e.store_id,
        pre_order: e.pre_order,
        pre_order_days: e.pre_order_days,
        coupon_id: e.coupon_id,
        delivery_method_id: e.delivery_method_id,
    }
}

/// The columns written for a stored user entry.
pub open spec fn user_row_columns() -> Seq<Seq<char>> {
    seq![
        "comment"@,
        "id"@,
        "product_id"@,
        "quantity"@,
        "selected"@,
        "store_id"@,
        "user_id"@,
        "pre_order"@,
        "pre_order_days"@,
    ]
}

/// The values written for a stored user entry, column by column.
pub open spec fn user_row_values(e: CartItemUser) -> Seq<SqlValue> {
    seq![
        SqlValue::Text(e.comment),
        SqlValue::Uuid(e.id.0),
        SqlValue::Int(e.product_id.0),
        SqlValue::Int(e.quantity.0),
        SqlValue::Bool(e.selected),
        SqlValue::Int(e.store_id.0),
        SqlValue::Int(e.user_id.0),
        SqlValue::Bool(e.pre_order),
        SqlValue::Int(e.pre_order_days),
    ]
}

impl CartItemUser {
    /// A fresh entry: one piece, selected, no comment, no coupon, no
    /// delivery method, under a new random id.
    pub fn new(user_id: UserId, product_id: ProductId, store_id: StoreId, pre_order: bool, pre_order_days: i32) -> (r: Self)
        ensures
            r.user_id == user_id,
            r.product_id == product_id,
            r.store_id == store_id,
            r.quantity == Quantity(1),
            r.selected,
            r.comment@ == Seq::<char>::empty(),
            r.pre_order == pre_order,
            r.pre_order_days == pre_order_days,
            r.coupon_id is None,
            r.delivery_method_id is None,
    {
        CartItemUser {
            user_id,
            product_id,
            store_id,
            id: CartItemId(new_uuid()),
            quantity: Quantity(1),
            selected: true,
            comment: String::new(),
            pre_order,
            pre_order_days,
            coupon_id: None,
            delivery_method_id: None,
        }
    }

    /// The entry as a cart item of its user.
    pub fn into_cart_item(self) -> (r: CartItem)
        ensures
            r == user_cart_item(self),
    {
        CartItem {
            id: self.id,
            customer: CartCustomer::User(self.user_id),
            product_id: self.product_id,
            quantity: self.quantity,
            selected: self.selected,
            comment: self.comment,
            store_id: self.store_id,
            pre_order: self.pre_order,
            pre_order_days: self.pre_order_days,
            coupon_id: self.coupon_id,
            delivery_method_id: self.delivery_method_id,
        }
    }

    /// The insert of the entry into `table`; coupon and delivery method are
    /// not written.
    pub fn into_insert_builder(self, table: &str) -> (r: InsertBuilder<SqlValue>)
        ensures
            r.wf(),
            r.table() == table@,
            r.extra() == Seq::<char>::empty(),
            r.columns() == user_row_columns(),
            r.values() == user_row_values(self),
    {
        let b = InsertBuilder::new(table)
            .with_arg("comment", SqlValue::Text(self.comment))
            .with_arg("id", SqlValue::Uuid(self.id.0))
            .with_arg("product_id", SqlValue::Int(self.product_id.0))
            .with_arg("quantity", SqlValue::Int(self.quantity.0))
            .with_arg("selected", SqlValue::Bool(self.selected))
            .with_arg("store_id", SqlValue::Int(self.store_id.0))
            .with_arg("user_id", SqlValue::Int(self.user_id.0))
            .with_arg("pre_order", SqlValue::Bool(self.pre_order))
            .with_arg("pre_order_days", SqlValue::Int(self.pre_order_days));
        assert(b.columns() =~= user_row_columns());
        b
    }
}

/// The columns written for a stored session entry.
pub open spec fn session_row_columns() -> Seq<Seq<char>> {
    seq![
        "comment"@,
        "id"@,
        "product_id"@,
        "quantity"@,
        "selected"@,
        "store_id"@,
        "session_id"@,
        "pre_order"@,
        "pre_order_days"@,
    ]
}

/// The values written for a stored session entry, column by column.
pub open spec fn session_row_values(e: CartItemSession) -> Seq<SqlValue> {
    seq![
        SqlValue::Text(e.comment),
        SqlValue::Uuid(e.id.0),
        SqlValue::Int(e.product_id.0),
        SqlValue::Int(e.quantity.0),
        SqlValue::Bool(e.selected),
        SqlValue::Int(e.store_id.0),
        SqlValue::Int(e.session_id.0),
        SqlValue::Bool(e.pre_order),
        SqlValue::Int(e.pre_order_days),
    ]
}

impl CartItemSession {
    /// A fresh entry: one piece, selected, no comment, no coupon, no
    /// delivery method, under a new random id.
    pub fn new(session_id: SessionId, product_id: ProductId, store_id: StoreId, pre_order: bool, pre_order_days: i32) -> (r: Self)
        ensures
            r.session_id == session_id,
            r.product_id == product_id,
            r.store_id == store_id,
            r.quantity == Quantity(1),
            r.selected,
            r.comment@ == Seq::<char>::empty(),
            r.pre_order == pre_order,
            r.pre_order_days == pre_order_days,
            r.coupon_id is None,
            r.delivery_method_id is None,
    {
        CartItemSession {
            session_id,
            product_id,
            store_id,
            id: CartItemId(new_uuid()),
            quantity: Quantity(1),
            selected: true,
            comment: String::new(),
            pre_order,
            pre_order_days,
            coupon_id: None,
            delivery_method_id: None,
        }
    }

    /// The entry as a cart item of its session.
    pub fn into_cart_item(self) -> (r: CartItem)
        ensures
            r == session_cart_item(self),
    {
        CartItem {
            id: self.id,
            customer: CartCustomer::Anonymous(self.session_id),
            product_id: self.product_id,
            quantity: self.quantity,
            selected: self.selected,
            comment: self.comment,
            store_id: self.store_id,
            pre_order: self.pre_order,
            pre_order_days: self.pre_order_days,
            coupon_id: self.coupon_id,
            delivery_method_id: self.delivery_method_id,
        }
    }

    /// The insert of the entry into `table`; coupon and delivery method are
    /// not written.
    pub fn into_insert_builder(self, table: &str) -> (r: InsertBuilder<SqlValue>)
        ensures
            r.wf(),
            r.table() == table@,
            r.extra() == Seq::<char>::empty(),
            r.columns() == session_row_columns(),
            r.values() == session_row_values(self),
    {
        let b = InsertBuilder::new(table)
            .with_arg("comment", SqlValue::Text(self.comment))
            .with_arg("id", SqlValue::Uuid(self.id.0))
            .with_arg("product_id", SqlValue::Int(self.product_id.0))
            .with_arg("quantity", SqlValue::Int(self.quantity.0))
            .with_arg("selected", SqlValue::Bool(self.selected))
            .with_arg("store_id", SqlValue::Int(self.store_id.0))
            .with_arg("session_id", SqlValue::Int(self.session_id.0))
            .with_arg("pre_order", SqlValue::Bool(self.pre_order))
            .with_arg("pre_order_days", SqlValue::Int(self.pre_order_days));
        assert(b.columns() =~= session_row_columns());
        b
    }
}

/// A cart item split by the table that stores it.
#[derive(Debug)]
pub enum SplitCartItem {
    User(CartItemUser),
    Session(CartItemSession),
}

/// Splits a cart item by its owner: users' entries and sessions' entries.
pub fn split_cart_item(v: CartItem) -> (r: SplitCartItem)
    ensures
        r == split_cart_item_spec(v),
{
    match v.customer {
        CartCustomer::User(user_id) => SplitCartItem::User(
            CartItemUser {
                user_id,
                id: v.id,
                product_id: v.product_id,
                quantity: v.quantity,
                selected: v.selected,
                comment: v.comment,
                store_id: v.store_id,
                pre_order: v.pre_order,
                pre_order_days: v.pre_order_days,
                coupon_id: v.coupon_id,
                delivery_method_id: v.delivery_method_id,
            },
        ),
        CartCustomer::Anonymous(session_id) => SplitCartItem::Session(
            CartItemSession {
                session_id,
                id: v.id,
                product_id: v.product_id,
                quantity: v.quantity,
                selected: v.selected,
                comment: v.comment,
                store_id: v.store_id,
                pre_order: v.pre_order,
                pre_order_days: v.pre_order_days,
                coupon_id: v.coupon_id,
                delivery_method_id: v.delivery_method_id,
            },
        ),
    }
}

/// What an insert does when the customer already has the product.
#[derive(Clone, Copy, Debug, PartialEq, Eq, Structural)]
pub enum CartItemMergeStrategy {
    Standard,
    Replacer,
    Incrementer,
    CollisionNoOp,
}

/// An insert of a cart item with its conflict strategy.
#[derive(Debug)]
pub struct CartItemInserter {
    pub strategy: CartItemMergeStrategy,
    pub data: CartItem,
}

#[derive(Debug)]
pub struct CartItemUserInserter {
    pub strategy: CartItemMergeStrategy,
    pub data: CartItemUser,
}

#[derive(Debug)]
pub struct CartItemSessionInserter {
    pub strategy: CartItemMergeStrategy,
    pub data: CartItemSession,
}

/// The conflict clause of an insert into the users' table.
pub open spec fn user_conflict_clause(strategy: CartItemMergeStrategy) -> Seq<char> {
    match strategy {
        CartItemMergeStrategy::Standard => Seq::empty(),
        CartItemMergeStrategy::Replacer => "ON CONFLICT (user_id, product_id) DO UPDATE SET comment = EXCLUDED.comment, id = EXCLUDED.id, product_id = EXCLUDED.product_id, quantity = EXCLUDED.quantity, selected = EXCLUDED.selected, store_id = EXCLUDED.store_id, pre_order = EXCLUDED.pre_order, pre_order_days = EXCLUDED.pre_order_days, coupon_id = EXCLUDED.coupon_id, delivery_method_id = EXCLUDED.delivery_method_id, user_id = EXCLUDED.user_id"@,
        CartItemMergeStrategy::Incrementer => "ON CONFLICT (user_id, product_id) DO UPDATE SET quantity = cart_items_user.quantity + 1"@,
        CartItemMergeStrategy::CollisionNoOp => "ON CONFLICT (user_id, product_id) DO NOTHING"@,
    }
}

/// The conflict clause of an insert into the sessions' table.
pub open spec fn session_conflict_clause(strategy: CartItemMergeStrategy) -> Seq<char> {
    match strategy {
        CartItemMergeStrategy::Standard => Seq::empty(),
        CartItemMergeStrategy::Replacer => "ON CONFLICT (session_id, product_id) DO UPDATE SET comment = EXCLUDED.comment, id = EXCLUDED.id, product_id = EXCLUDED.product_id, quantity = EXCLUDED.quantity, selected = EXCLUDED.selected, store_id = EXCLUDED.store_id, pre_order = EXCLUDED.pre_order, pre_order_days = EXCLUDED.pre_order_days, coupon_id = EXCLUDED.coupon_id, delivery_method_id = EXCLUDED.delivery_method_id, session_id = EXCLUDED.session_id"@,
        CartItemMergeStrategy::Incrementer => "ON CONFLICT (session_id, product_id) DO UPDATE SET quantity = cart_items_session.quantity + 1"@,
        CartItemMergeStrategy::CollisionNoOp => "ON CONFLICT (session_id, product_id) DO NOTHING"@,
    }
}

impl CartItemUserInserter {
    /// The insert of the entry with the conflict clause of its strategy.
    pub fn into_insert_builder(self, table: &str) -> (r: InsertBuilder<SqlValue>)
        ensures
            r.wf(),
            r.table() == table@,
            r.extra() == user_conflict_clause(self.strategy),
            r.columns() == user_row_columns(),
            r.values() == user_row_values(self.data),
    {
        let strategy = self.strategy;
        let b = self.data.into_insert_builder(table);
        match strategy {
            CartItemMergeStrategy::Standard => b,
            CartItemMergeStrategy::Replacer => b.with_extra("ON CONFLICT (user_id, product_id) DO UPDATE SET comment = EXCLUDED.comment, id = EXCLUDED.id, product_id = EXCLUDED.product_id, quantity = EXCLUDED.quantity, selected = EXCLUDED.selected, store_id = EXCLUDED.store_id, pre_order = EXCLUDED.pre_order, pre_order_days = EXCLUDED.pre_order_days, coupon_id = EXCLUDED.coupon_id, delivery_method_id = EXCLUDED.delivery_method_id, user_id = EXCLUDED.user_id"),
            CartItemMergeStrategy::Incrementer => b.with_extra("ON CONFLICT (user_id, product_id) DO UPDATE SET quantity = cart_items_user.quantity + 1"),
            CartItemMergeStrategy::CollisionNoOp => b.with_extra("ON CONFLICT (user_id, product_id) DO NOTHING"),
        }
    }
}

impl CartItemSessionInserter {
    /// The insert of the entry with the conflict clause of its strategy.
    pub fn into_insert_builder(self, table: &str) -> (r: InsertBuilder<SqlValue>)
        ensures
            r.wf(),
            r.table() == table@,
            r.extra() == session_conflict_clause(self.strategy),
            r.columns() == session_row_columns(),
            r.values() == session_row_values(self.data),
    {
        let strategy = self.strategy;
        let b = self.data.into_insert_builder(table);
        match strategy {
            CartItemMergeStrategy::Standard => b,
            CartItemMergeStrategy::Replacer => b.with_extra("ON CONFLICT (session_id, product_id) DO UPDATE SET comment = EXCLUDED.comment, id = EXCLUDED.id, product_id = EXCLUDED.product_id, quantity = EXCLUDED.quantity, selected = EXCLUDED.selected, store_id = EXCLUDED.store_id, pre_order = EXCLUDED.pre_order, pre_order_days = EXCLUDED.pre_order_days, coupon_id = EXCLUDED.coupon_id, delivery_method_id = EXCLUDED.delivery_method_id, session_id = EXCLUDED.session_id"),
            CartItemMergeStrategy::Incrementer => b.with_extra("ON CONFLICT (session_id, product_id) DO UPDATE SET quantity = cart_items_session.quantity + 1"),
            CartItemMergeStrategy::CollisionNoOp => b.with_extra("ON CONFLICT (session_id, product_id) DO NOTHING"),
        }
    }
}

/// An insert split by the table it goes to.
#[derive(Debug)]
pub enum SplitCartItemInserter {
    User(CartItemUserInserter),
    Session(CartItemSessionInserter),
}

impl CartItemInserter {
    /// The insert routed to the users' or the sessions' table by the item's
    /// owner, keeping the strategy.
    pub fn split(self) -> (r: SplitCartItemInserter)
        ensures
            match split_cart_item_spec(self.data) {
                SplitCartItem::User(d) => r == SplitCartItemInserter::User(
                    CartItemUserInserter { strategy: self.strategy, data: d },
                ),
                SplitCartItem::Session(d) => r == SplitCartItemInserter::Session(
                    CartItemSessionInserter { strategy: self.strategy, data: d },
                ),
            },
    {
        let strategy = self.strategy;
        match split_cart_item(self.data) {
            SplitCartItem::User(data) => SplitCartItemInserter::User(CartItemUserInserter { strategy, data }),
            SplitCartItem::Session(data) => SplitCartItemInserter::Session(CartItemSessionInserter { strategy, data }),
        }
    }
}

/// The split of a cart item by its owner, as `split_cart_item` returns it.
pub open spec fn split_cart_item_spec(v: CartItem) -> SplitCartItem {
    match v.customer {
        CartCustomer::User(user_id) => SplitCartItem::User(
            CartItemUser {
                id: v.id,
                user_id,
                product_id: v.product_id,
                quantity: v.quantity,
                selected: v.selected,
                comment: v.comment,
                store_id: v.store_id,
                pre_order: v.pre_order,
                pre_order_days: v.pre_order_days,
                coupon_id: v.coupon_id,
                delivery_method_id: v.delivery_method_id,
            },
        ),
        CartCustomer::Anonymous(session_id) => SplitCartItem::Session(
            CartItemSession {
                id: v.id,
                session_id,
                product_id: v.product_id,
                quantity: v.quantity,
                selected: v.selected,
                comment: v.comment,
                store_id: v.store_id,
                pre_order: v.pre_order,
                pre_order_days: v.pre_order_days,
                coupon_id: v.coupon_id,
                delivery_method_id: v.delivery_method_id,
            },
        ),
    }
}

} // verus!

verus! {

/// Conditions on the columns that both cart tables share.
#[derive(Debug)]
pub struct CartItemMetaFilter {
    pub id: Option<CartItemId>,
    /// Product ids.
    pub product_id: Option<Range<i32>>,
    /// Quantities.
    pub quantity: Option<Range<i32>>,
    pub selected: Option<bool>,
    pub comment: Option<String>,
    /// Store ids.
    pub store_id: Option<Range<i32>>,
    /// Coupon ids.
    pub coupon_id: Option<Range<i32>>,
    pub delivery_method_id: Option<String>,
}

impl Default for CartItemMetaFilter {
    /// No condition at all.
    fn default() -> (r: Self)
        ensures
            r.id is None,
            r.product_id is None,
            r.quantity is None,
            r.selected is None,
            r.comment is None,
            r.store_id is None,
            r.coupon_id is None,
            r.delivery_method_id is None,
    {
        CartItemMetaFilter {
            id: None,
            product_id: None,
            quantity: None,
            selected: None,
            comment: None,
            store_id: None,
            coupon_id: None,
            delivery_method_id: None,
        }
    }
}

/// The columns that a shared filter constrains, in order; the quantity
/// condition is not written.
pub open spec fn meta_columns(f: CartItemMetaFilter) -> Seq<Seq<char>> {
    if_present(f.id is Some, "id"@) + if_present(f.product_id is Some, "product_id"@) + if_present(f.selected is Some, "selected"@)
        + if_present(f.comment is Some, "comment"@) + if_present(f.store_id is Some, "store_id"@) + if_present(
        f.coupon_id is Some,
        "coupon_id"@,
    ) + if_present(f.delivery_method_id is Some, "delivery_method_id"@)
}

/// The one-element sequence of a present value, else the empty sequence.
pub open spec fn opt_seq<T>(o: Option<T>) -> Seq<T> {
    match o {
        Some(x) => seq![x],
        None => Seq::empty(),
    }
}

pub open spec fn uuid_arg(o: Option<CartItemId>) -> Option<FilterArg> {
    match o {
        Some(v) => Some(FilterArg::Value(SqlValue::Uuid(v.0))),
        None => None,
    }
}

pub open spec fn ints_arg(o: Option<Range<i32>>) -> Option<FilterArg> {
    match o {
        Some(v) => Some(FilterArg::Ints(v)),
        None => None,
    }
}

pub open spec fn bool_arg(o: Option<bool>) -> Option<FilterArg> {
    match o {
        Some(v) => Some(FilterArg::Value(SqlValue::Bool(v))),
        None => None,
    }
}

pub open spec fn text_arg(o: Option<String>) -> Option<FilterArg> {
    match o {
        Some(v) => Some(FilterArg::Value(SqlValue::Text(v))),
        None => None,
    }
}

/// The arguments of the conditions of a shared filter, in order.
pub open spec fn meta_args(f: CartItemMetaFilter) -> Seq<FilterArg> {
    opt_seq(uuid_arg(f.id)) + opt_seq(ints_arg(f.product_id)) + opt_seq(bool_arg(f.selected)) + opt_seq(
        text_arg(f.comment),
    ) + opt_seq(ints_arg(f.store_id)) + opt_seq(ints_arg(f.coupon_id)) + opt_seq(text_arg(f.delivery_method_id))
}

/// `b` with the conditions of a shared filter appended.
pub open spec fn extended_by(
    r: FilteredOperationBuilder<FilterArg>,
    b: FilteredOperationBuilder<FilterArg>,
    columns: Seq<Seq<char>>,
    args: Seq<FilterArg>,
) -> bool {
    &&& r.wf()
    &&& r.op() == b.op()
    &&& r.table() == b.table()
    &&& r.extra() == b.extra()
    &&& r.columns() == b.columns() + columns
    &&& r.args() == b.args() + args
}

/// Appends a condition on `column` when `arg` is present.
pub fn with_opt_arg(b: FilteredOperationBuilder<FilterArg>, column: &str, arg: Option<FilterArg>) -> (r: FilteredOperationBuilder<FilterArg>)
    requires
        b.wf(),
    ensures
        extended_by(r, b, if_present(arg is Some, column@), opt_seq(arg)),
{
    match arg {
        Some(v) => {
            let r = b.with_arg(column, v);
            assert(r.columns() =~= b.columns() + seq![column@]);
            assert(r.args() =~= b.args() + seq![v]);
            r
        },
        None => {
            assert(b.columns() =~= b.columns() + Seq::<Seq<char>>::empty());
            assert(b.args() =~= b.args() + Seq::<FilterArg>::empty());
            b
        },
    }
}

fn uuid_filter(o: Option<CartItemId>) -> (r: Option<FilterArg>)
    ensures
        r == uuid_arg(o),
{
    match o {
        Some(v) => Some(FilterArg::Value(SqlValue::Uuid(v.0))),
        None => None,
    }
}

fn ints_filter(o: Option<Range<i32>>) -> (r: Option<FilterArg>)
    ensures
        r == ints_arg(o),
{
    match o {
        Some(v) => Some(FilterArg::Ints(v)),
        None => None,
    }
}

fn bool_filter(o: Option<bool>) -> (r: Option<FilterArg>)
    ensures
        r == bool_arg(o),
{
    match o {
        Some(v) => Some(FilterArg::Value(SqlValue::Bool(v))),
        None => None,
    }
}

fn text_filter(o: Option<String>) -> (r: Option<FilterArg>)
    ensures
        r == text_arg(o),
{
    match o {
        Some(v) => Some(FilterArg::Value(SqlValue::Text(v))),
        None => None,
    }
}

impl CartItemMetaFilter {
    /// Appends the conditions of this filter to `b`.
    pub fn write_into_filtered_operation_builder(self, b: FilteredOperationBuilder<FilterArg>) -> (r: FilteredOperationBuilder<FilterArg>)
        requires
            b.wf(),
        ensures
            extended_by(r, b, meta_columns(self), meta_args(self)),
    {
        let ghost f = self;
        let b1 = with_opt_arg(b, "id", uuid_filter(self.id));
        let b2 = with_opt_arg(b1, "product_id", ints_filter(self.product_id));
        let b3 = with_opt_arg(b2, "selected", bool_filter(self.selected));
        let b4 = with_opt_arg(b3, "comment", text_filter(self.comment));
        let b5 = with_opt_arg(b4, "store_id", ints_filter(self.store_id));
        let b6 = with_opt_arg(b5, "coupon_id", ints_filter(self.coupon_id));
        let b7 = with_opt_arg(b6, "delivery_method_id", text_filter(self.delivery_method_id));
        proof {
            let c1 = if_present(f.id is Some, "id"@);
            let c2 = if_present(f.product_id is Some, "product_id"@);
            let c3 = if_present(f.selected is Some, "selected"@);
            let c4 = if_present(f.comment is Some, "comment"@);
            let c5 = if_present(f.store_id is Some, "store_id"@);
            let c6 = if_present(f.coupon_id is Some, "coupon_id"@);
            let c7 = if_present(f.delivery_method_id is Some, "delivery_method_id"@);
            let bc = b.columns();
            lemma_concat_associative(bc, c1, c2);
            lemma_concat_associative(bc, c1 + c2, c3);
            lemma_concat_associative(bc, c1 + c2 + c3, c4);
            lemma_concat_associative(bc, c1 + c2 + c3 + c4, c5);
            lemma_concat_associative(bc, c1 + c2 + c3 + c4 + c5, c6);
            lemma_concat_associative(bc, c1 + c2 + c3 + c4 + c5 + c6, c7);
            let a1 = opt_seq(uuid_arg(f.id));
            let a2 = opt_seq(ints_arg(f.product_id));
            let a3 = opt_seq(bool_arg(f.selected));
            let a4 = opt_seq(text_arg(f.comment));
            let a5 = opt_seq(ints_arg(f.store_id));
            let a6 = opt_seq(ints_arg(f.coupon_id));
            let a7 = opt_seq(text_arg(f.delivery_method_id));
            let ba = b.args();
            lemma_concat_associative(ba, a1, a2);
            lemma_concat_associative(ba, a1 + a2, a3);
            lemma_concat_associative(ba, a1 + a2 + a3, a4);
            lemma_concat_associative(ba, a1 + a2 + a3 + a4, a5);
            lemma_concat_associative(ba, a1 + a2 + a3 + a4 + a5, a6);
            lemma_concat_associative(ba, a1 + a2 + a3 + a4 + a5 + a6, a7);
        }
        b7
    }
}

} // verus!

verus! {

pub open spec fn user_arg(o: Option<UserId>) -> Option<FilterArg> {
    match o {
        Some(v) => Some(FilterArg::Value(SqlValue::Int(v.0))),
        None => None,
    }
}

pub open spec fn session_arg(o: Option<SessionId>) -> Option<FilterArg> {
    match o {
        Some(v) => Some(FilterArg::Value(SqlValue::Int(v.0))),
        None => None,
    }
}

/// A filter on the users' table.
#[derive(Debug)]
pub struct CartItemUserFilter {
    pub meta_filter: CartItemMetaFilter,
    pub user_id: Option<UserId>,
}

/// A filter on the sessions' table.
#[derive(Debug)]
pub struct CartItemSessionFilter {
    pub meta_filter: CartItemMetaFilter,
    pub session_id: Option<SessionId>,
}

/// `r` is a fresh `op` statement on `table` with the given conditions.
pub open spec fn filtered(
    r: FilteredOperationBuilder<FilterArg>,
    op: FilteredOperation,
    table: Seq<char>,
    columns: Seq<Seq<char>>,
    args: Seq<FilterArg>,
) -> bool {
    &&& r.wf()
    &&& r.op() == op
    &&& r.table() == table
    &&& r.extra() == Seq::<char>::empty()
    &&& r.columns() == columns
    &&& r.args() == args
}

impl CartItemUserFilter {
    /// The statement on `table`: the user condition, then the shared ones.
    pub fn into_filtered_operation_builder(self, op: FilteredOperation, table: &str) -> (r: FilteredOperationBuilder<FilterArg>)
        ensures
            filtered(
                r,
                op,
                table@,
                if_present(self.user_id is Some, "user_id"@) + meta_columns(self.meta_filter),
                opt_seq(user_arg(self.user_id)) + meta_args(self.meta_filter),
            ),
    {
        let b = FilteredOperationBuilder::new(op, table);
        let arg = match self.user_id {
            Some(v) => Some(FilterArg::Value(SqlValue::Int(v.0))),
            None => None,
        };
        let b = with_opt_arg(b, "user_id", arg);
        let r = self.meta_filter.write_into_filtered_operation_builder(b);
        assert(b.columns() =~= if_present(self.user_id is Some, "user_id"@));
        assert(b.args() =~= opt_seq(user_arg(self.user_id)));
        r
    }
}

impl CartItemSessionFilter {
    /// The statement on `table`: the session condition, then the shared ones.
    pub fn into_filtered_operation_builder(self, op: FilteredOperation, table: &str) -> (r: FilteredOperationBuilder<FilterArg>)
        ensures
            filtered(
                r,
                op,
                table@,
                if_present(self.session_id is Some, "session_id"@) + meta_columns(self.meta_filter),
                opt_seq(session_arg(self.session_id)) + meta_args(self.meta_filter),
            ),
    {
        let b = FilteredOperationBuilder::new(op, table);
        let arg = match self.session_id {
            Some(v) => Some(FilterArg::Value(SqlValue::Int(v.0))),
            None => None,
        };
        let b = with_opt_arg(b, "session_id", arg);
        let r = self.meta_filter.write_into_filtered_operation_builder(b);
        assert(b.columns() =~= if_present(self.session_id is Some, "session_id"@));
        assert(b.args() =~= opt_seq(session_arg(self.session_id)));
        r
    }
}

impl CartItemMetaFilter {
    /// A fresh statement on `table` with the shared conditions.
    pub fn into_filtered_operation_builder(self, op: FilteredOperation, table: &str) -> (r: FilteredOperationBuilder<FilterArg>)
        ensures
            filtered(r, op, table@, meta_columns(self), meta_args(self)),
    {
        let b = FilteredOperationBuilder::new(op, table);
        let r = self.write_into_filtered_operation_builder(b);
        assert(r.columns() =~= meta_columns(self));
        assert(r.args() =~= meta_args(self));
        r
    }
}

/// A filter on cart entries of one customer, or of all customers.
#[derive(Debug)]
pub struct CartItemFilter {
    pub meta_filter: CartItemMetaFilter,
    pub customer: Option<CartCustomer>,
}

/// A cart filter as the tables see it: one table for one customer, both
/// tables when no customer is named.
#[derive(Debug)]
pub enum CartItemTableFilter {
    User(CartItemUserFilter),
    Session(CartItemSessionFilter),
    Both(CartItemMetaFilter),
}

/// The table filter of a cart filter.
pub open spec fn table_filter(f: CartItemFilter) -> CartItemTableFilter {
    match f.customer {
        Some(CartCustomer::User(u)) => CartItemTableFilter::User(
            CartItemUserFilter { meta_filter: f.meta_filter, user_id: Some(u) },
        ),
        Some(CartCustomer::Anonymous(s)) => CartItemTableFilter::Session(
            CartItemSessionFilter { meta_filter: f.meta_filter, session_id: Some(s) },
        ),
        None => CartItemTableFilter::Both(f.meta_filter),
    }
}

/// `r` is the statement of a cart filter on `table`: the owner condition of
/// its customer, if any, then the shared conditions.
pub open spec fn cart_filter_statement(
    r: FilteredOperationBuilder<FilterArg>,
    f: CartItemFilter,
    op: FilteredOperation,
    table: Seq<char>,
) -> bool {
    match f.customer {
        Some(CartCustomer::User(u)) => filtered(
            r,
            op,
            table,
            seq!["user_id"@] + meta_columns(f.meta_filter),
            seq![FilterArg::Value(SqlValue::Int(u.0))] + meta_args(f.meta_filter),
        ),
        Some(CartCustomer::Anonymous(s)) => filtered(
            r,
            op,
            table,
            seq!["session_id"@] + meta_columns(f.meta_filter),
            seq![FilterArg::Value(SqlValue::Int(s.0))] + meta_args(f.meta_filter),
        ),
        None => filtered(r, op, table, meta_columns(f.meta_filter), meta_args(f.meta_filter)),
    }
}

impl CartItemFilter {
    /// Routes the filter to the table of its customer, or to both tables.
    pub fn by_table(self) -> (r: CartItemTableFilter)
        ensures
            r == table_filter(self),
    {
        match self.customer {
            Some(CartCustomer::User(u)) => CartItemTableFilter::User(
                CartItemUserFilter { meta_filter: self.meta_filter, user_id: Some(u) },
            ),
            Some(CartCustomer::Anonymous(s)) => CartItemTableFilter::Session(
                CartItemSessionFilter { meta_filter: self.meta_filter, session_id: Some(s) },
            ),
            None => CartItemTableFilter::Both(self.meta_filter),
        }
    }

    /// The statement on `table` for this filter: with the owner condition of
    /// its customer, or with the shared conditions alone.
    pub fn into_filtered_operation_builder(self, op: FilteredOperation, table: &str) -> (r: FilteredOperationBuilder<FilterArg>)
        ensures
            cart_filter_statement(r, self, op, table@),
    {
        match self.by_table() {
            CartItemTableFilter::User(f) => f.into_filtered_operation_builder(op, table),
            CartItemTableFilter::Session(f) => f.into_filtered_operation_builder(op, table),
            CartItemTableFilter::Both(f) => f.into_filtered_operation_builder(op, table),
        }
    }
}

/// New values for cart entries; each present field is set.
#[derive(Debug)]
pub struct CartItemUpdateData {
    pub quantity: Option<Quantity>,
    pub selected: Option<bool>,
    pub comment: Option<String>,
    pub coupon_id: Option<Option<CouponId>>,
    pub delivery_method_id: Option<Option<DeliveryMethodId>>,
}

impl Default for CartItemUpdateData {
    /// Changes nothing.
    fn default() -> (r: Self)
        ensures
            r.quantity is None,
            r.selected is None,
            r.comment is None,
            r.coupon_id is None,
            r.delivery_method_id is None,
    {
        CartItemUpdateData { quantity: None, selected: None, comment: None, coupon_id: None, delivery_method_id: None }
    }
}

/// The columns an update sets, in order.
pub open spec fn update_columns(d: CartItemUpdateData) -> Seq<Seq<char>> {
    if_present(d.selected is Some, "selected"@) + if_present(d.quantity is Some, "quantity"@) + if_present(d.comment is Some, "comment"@)
        + if_present(d.coupon_id is Some, "coupon_id"@) + if_present(d.delivery_method_id is Some, "delivery_method_id"@)
}

/// The values an update sets, column by column.
pub open spec fn update_values(d: CartItemUpdateData) -> Seq<SqlValue> {
    (match d.selected {
        Some(v) => seq![SqlValue::Bool(v)],
        None => Seq::empty(),
    }) + (match d.quantity {
        Some(v) => seq![SqlValue::Int(v.0)],
        None => Seq::empty(),
    }) + (match d.comment {
        Some(v) => seq![SqlValue::Text(v)],
        None => Seq::empty(),
    }) + (match d.coupon_id {
        Some(v) => seq![
            SqlValue::OptInt(
                match v {
                    Some(c) => Some(c.0),
                    None => None,
                },
            ),
        ],
        None => Seq::empty(),
    }) + (match d.delivery_method_id {
        Some(v) => seq![SqlValue::DeliveryMethod(v)],
        None => Seq::empty(),
    })
}

/// Appends a set column when `value` is present.
fn with_opt_value(
    b: UpdateBuilder<FilterArg, SqlValue>,
    column: &str,
    value: Option<SqlValue>,
) -> (r: UpdateBuilder<FilterArg, SqlValue>)
    requires
        b.wf(),
    ensures
        r.wf(),
        r.filter() == b.filter(),
        r.columns() == b.columns() + if_present(value is Some, column@),
        r.values() == b.values() + opt_seq(value),
{
    match value {
        Some(v) => {
            let r = b.with_value(column, v);
            assert(r.columns() =~= b.columns() + seq![column@]);
            assert(r.values() =~= b.values() + seq![v]);
            r
        },
        None => {
            assert(b.columns() =~= b.columns() + Seq::<Seq<char>>::empty());
            assert(b.values() =~= b.values() + Seq::<SqlValue>::empty());
            b
        },
    }
}

/// An update of the cart entries that `filter` selects.
#[derive(Debug)]
pub struct CartItemUpdater {
    pub filter: CartItemFilter,
    pub data: CartItemUpdateData,
}

impl CartItemUpdateData {
    /// Adds the set columns of this data to an update.
    pub fn write_into_update_builder(self, b: UpdateBuilder<FilterArg, SqlValue>) -> (r: UpdateBuilder<FilterArg, SqlValue>)
        requires
            b.wf(),
        ensures
            r.wf(),
            r.filter() == b.filter(),
            r.columns() == b.columns() + update_columns(self),
            r.values() == b.values() + update_values(self),
    {
        let ghost d = self;
        let v1 = match self.selected {
            Some(v) => Some(SqlValue::Bool(v)),
            None => None,
        };
        let b1 = with_opt_value(b, "selected", v1);
        let v2 = match self.quantity {
            Some(v) => Some(SqlValue::Int(v.0)),
            None => None,
        };
        let b2 = with_opt_value(b1, "quantity", v2);
        let v3 = match self.comment {
            Some(v) => Some(SqlValue::Text(v)),
            None => None,
        };
        let b3 = with_opt_value(b2, "comment", v3);
        let v4 = match self.coupon_id {
            Some(v) => Some(
                SqlValue::OptInt(
                    match v {
                        Some(c) => Some(c.0),
                        None => None,
                    },
                ),
            ),
            None => None,
        };
        let b4 = with_opt_value(b3, "coupon_id", v4);
        let v5 = match self.delivery_method_id {
            Some(v) => Some(SqlValue::DeliveryMethod(v)),
            None => None,
        };
        let b5 = with_opt_value(b4, "delivery_method_id", v5);
        proof {
            let c1 = if_present(v1 is Some, "selected"@);
            let c2 = if_present(v2 is Some, "quantity"@);
            let c3 = if_present(v3 is Some, "comment"@);
            let c4 = if_present(v4 is Some, "coupon_id"@);
            let c5 = if_present(v5 is Some, "delivery_method_id"@);
            lemma_concat_associative(b.columns(), c1, c2);
            lemma_concat_associative(b.columns(), c1 + c2, c3);
            lemma_concat_associative(b.columns(), c1 + c2 + c3, c4);
            lemma_concat_associative(b.columns(), c1 + c2 + c3 + c4, c5);
            assert(b5.columns() =~= b.columns() + update_columns(d));
            let a1 = opt_seq(v1);
            let a2 = opt_seq(v2);
            let a3 = opt_seq(v3);
            let a4 = opt_seq(v4);
            let a5 = opt_seq(v5);
            lemma_concat_associative(b.values(), a1, a2);
            lemma_concat_associative(b.values(), a1 + a2, a3);
            lemma_concat_associative(b.values(), a1 + a2 + a3, a4);
            lemma_concat_associative(b.values(), a1 + a2 + a3 + a4, a5);
            assert(b5.values() =~= b.values() + update_values(d));
        }
        b5
    }
}

impl CartItemUpdater {
    /// The update on `table`: the rows of the filter, the columns of the data.
    pub fn into_update_builder(self, table: &str) -> (r: UpdateBuilder<FilterArg, SqlValue>)
        ensures
            r.wf(),
            cart_filter_statement(r.filter(), self.filter, FilteredOperation::Select, table@),
            r.columns() == update_columns(self.data),
            r.values() == update_values(self.data),
    {
        let f = self.filter.into_filtered_operation_builder(FilteredOperation::Select, table);
        let b = UpdateBuilder::from_filter(f);
        let r = self.data.write_into_update_builder(b);
        assert(Seq::<Seq<char>>::empty() + update_columns(self.data) =~= update_columns(self.data));
        assert(Seq::<SqlValue>::empty() + update_values(self.data) =~= update_values(self.data));
        r
    }
}

/// Splitting a cart item by its owner and reading the stored entry back
/// as a cart item gives the item again.
pub proof fn law_split_then_join(v: CartItem)
    ensures
        match split_cart_item_spec(v) {
            SplitCartItem::User(e) => user_cart_item(e) == v,
            SplitCartItem::Session(e) => session_cart_item(e) == v,
        },
{
}

/// A stored entry read as a cart item and split again is the same stored
/// entry, in the same table.
pub proof fn law_join_then_split(u: CartItemUser, s: CartItemSession)
    ensures
        split_cart_item_spec(user_cart_item(u)) == SplitCartItem::User(u),
        split_cart_item_spec(session_cart_item(s)) == SplitCartItem::Session(s),
{
}

} // verus!
