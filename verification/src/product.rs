//! The single-table cart entries of registered users and their statements.

use vstd::prelude::*;

use crate::cart::{if_present, opt_seq, with_opt_arg};
use crate::sql::{FilterArg, Range, SqlValue};
use std::collections::HashMap;

use crate::text::{append_int, int_text};
use crate::types::{CartItemId, ProductId, Quantity, StoreId, UserId};
use crate::util::{FilteredOperation, FilteredOperationBuilder, InsertBuilder, UpdateBuilder};

verus! {

/// A new entry of a user's cart.
#[derive(Debug)]
pub struct NewCartProduct {
    pub user_id: UserId,
    pub product_id: ProductId,
    pub quantity: Quantity,
    pub selected: bool,
    pub comment: String,
    pub store_id: StoreId,
}

/// The columns written for a new entry.
pub open spec fn new_product_columns() -> Seq<Seq<char>> {
    seq!["user_id"@, "product_id"@, "quantity"@, "selected"@, "comment"@, "store_id"@]
}

/// The values written for a new entry, column by column.
pub open spec fn new_product_values(p: NewCartProduct) -> Seq<SqlValue> {
    seq![
        SqlValue::Int(p.user_id.0),
        SqlValue::Int(p.product_id.0),
        SqlValue::Int(p.quantity.0),
        SqlValue::Bool(p.selected),
        SqlValue::Text(p.comment),
        SqlValue::Int(p.store_id.0),
    ]
}

impl NewCartProduct {
    /// One selected piece of the product, without comment.
    pub fn new(user_id: UserId, product_id: ProductId, store_id: StoreId) -> (r: Self)
        ensures
            r.user_id == user_id,
            r.product_id == product_id,
            r.store_id == store_id,
            r.quantity == Quantity(1),
            r.selected,
            r.comment@ == Seq::<char>::empty(),
    {
        NewCartProduct { user_id, product_id, store_id, quantity: Quantity(1), selected: true, comment: String::new() }
    }

    /// The insert of the entry into `table`.
    pub fn into_insert_builder(self, table: &str) -> (r: InsertBuilder<SqlValue>)
        ensures
            r.wf(),
            r.table() == table@,
            r.extra() == Seq::<char>::empty(),
            r.columns() == new_product_columns(),
            r.values() == new_product_values(self),
    {
        let b = InsertBuilder::new(table)
            .with_arg("user_id", SqlValue::Int(self.user_id.0))
            .with_arg("product_id", SqlValue::Int(self.product_id.0))
            .with_arg("quantity", SqlValue::Int(self.quantity.0))
            .with_arg("selected", SqlValue::Bool(self.selected))
            .with_arg("comment", SqlValue::Text(self.comment))
            .with_arg("store_id", SqlValue::Int(self.store_id.0));
        assert(b.columns() =~= new_product_columns());
        assert(b.values() =~= new_product_values(self));
        b
    }
}

/// An insert of a new entry that, when the user already has the product,
/// adds one piece or leaves the entry alone.
#[derive(Debug)]
pub enum CartProductInserter {
    Incrementer(NewCartProduct),
    CollisionNoOp(NewCartProduct),
}

impl CartProductInserter {
    /// The insert with its conflict clause.
    pub fn into_insert_builder(self, table: &str) -> (r: InsertBuilder<SqlValue>)
        ensures
            r.wf(),
            r.table() == table@,
            r.columns() == new_product_columns(),
            match self {
                CartProductInserter::Incrementer(d) => r.values() == new_product_values(d) && r.extra()
                    == "ON CONFLICT (user_id, product_id) DO UPDATE SET quantity = cart_items.quantity + 1"@,
                CartProductInserter::CollisionNoOp(d) => r.values() == new_product_values(d) && r.extra()
                    == "ON CONFLICT (user_id, product_id) DO NOTHING"@,
            },
    {
        match self {
            CartProductInserter::Incrementer(data) => data.into_insert_builder(table).with_extra(
                "ON CONFLICT (user_id, product_id) DO UPDATE SET quantity = cart_items.quantity + 1",
            ),
            CartProductInserter::CollisionNoOp(data) => data.into_insert_builder(table).with_extra(
                "ON CONFLICT (user_id, product_id) DO NOTHING",
            ),
        }
    }
}

/// An entry of a user's cart, as stored.
#[derive(Debug)]
pub struct CartProduct {
    pub id: CartItemId,
    pub user_id: UserId,
    pub product_id: ProductId,
    pub quantity: Quantity,
    pub selected: bool,
    pub comment: String,
    pub store_id: StoreId,
}

impl CartProduct {
    /// The id of the entry and its data.
    pub fn decompose(self) -> (r: (CartItemId, NewCartProduct))
        ensures
            r.0 == self.id,
            r.1 == (NewCartProduct {
                user_id: self.user_id,
                product_id: self.product_id,
                quantity: self.quantity,
                selected: self.selected,
                comment: self.comment,
                store_id: self.store_id,
            }),
    {
        (
            self.id,
            NewCartProduct {
                user_id: self.user_id,
                product_id: self.product_id,
                quantity: self.quantity,
                selected: self.selected,
                comment: self.comment,
                store_id: self.store_id,
            },
        )
    }
}

/// Conditions on entries of users' carts.
#[derive(Debug)]
pub struct CartProductMask {
    pub id: Option<CartItemId>,
    /// User ids.
    pub user_id: Option<Range<i32>>,
    /// Product ids.
    pub product_id: Option<Range<i32>>,
    /// Quantities.
    pub quantity: Option<Range<i32>>,
    pub selected: Option<bool>,
    pub comment: Option<String>,
    /// Store ids.
    pub store_id: Option<Range<i32>>,
}

/// The columns a mask constrains, in order; the quantity is not written.
pub open spec fn mask_columns(m: CartProductMask) -> Seq<Seq<char>> {
    Seq::empty() + if_present(m.id is Some, "id"@) + if_present(m.product_id is Some, "product_id"@) + if_present(
        m.user_id is Some,
        "user_id"@,
    ) + if_present(m.selected is Some, "selected"@) + if_present(m.comment is Some, "comment"@) + if_present(
        m.store_id is Some,
        "store_id"@,
    )
}

/// The arguments of a mask's conditions, in order.
pub open spec fn mask_args(m: CartProductMask) -> Seq<FilterArg> {
    Seq::empty() + opt_seq(
        match m.id {
            Some(v) => Some(FilterArg::Value(SqlValue::Uuid(v.0))),
            None => None,
        },
    ) + opt_seq(
        match m.product_id {
            Some(v) => Some(FilterArg::Ints(v)),
            None => None,
        },
    ) + opt_seq(
        match m.user_id {
            Some(v) => Some(FilterArg::Ints(v)),
            None => None,
        },
    ) + opt_seq(
        match m.selected {
            Some(v) => Some(FilterArg::Value(SqlValue::Bool(v))),
            None => None,
        },
    ) + opt_seq(
        match m.comment {
            Some(v) => Some(FilterArg::Value(SqlValue::Text(v))),
            None => None,
        },
    ) + opt_seq(
        match m.store_id {
            Some(v) => Some(FilterArg::Ints(v)),
            None => None,
        },
    )
}

impl CartProductMask {
    /// The statement on `table` with this mask's conditions.
    pub fn into_filtered_operation_builder(self, op: FilteredOperation, table: &str) -> (r: FilteredOperationBuilder<FilterArg>)
        ensures
            r.wf(),
            r.op() == op,
            r.table() == table@,
            r.extra() == Seq::<char>::empty(),
            r.columns() == mask_columns(self),
            r.args() == mask_args(self),
    {
        let b = FilteredOperationBuilder::new(op, table);
        let a = match self.id { Some(v) => Some(FilterArg::Value(SqlValue::Uuid(v.0))), None => None };
        let b = with_opt_arg(b, "id", a);
        let a = match self.product_id { Some(v) => Some(FilterArg::Ints(v)), None => None };
        let b = with_opt_arg(b, "product_id", a);
        let a = match self.user_id { Some(v) => Some(FilterArg::Ints(v)), None => None };
        let b = with_opt_arg(b, "user_id", a);
        let a = match self.selected { Some(v) => Some(FilterArg::Value(SqlValue::Bool(v))), None => None };
        let b = with_opt_arg(b, "selected", a);
        let a = match self.comment { Some(v) => Some(FilterArg::Value(SqlValue::Text(v))), None => None };
        let b = with_opt_arg(b, "comment", a);
        let a = match self.store_id { Some(v) => Some(FilterArg::Ints(v)), None => None };
        with_opt_arg(b, "store_id", a)
    }
}

/// New values for entries of users' carts.
#[derive(Debug)]
pub struct CartProductUpdateData {
    pub quantity: Option<Quantity>,
    pub selected: Option<bool>,
    pub comment: Option<String>,
}

/// An update of the entries that `mask` selects.
#[derive(Debug)]
pub struct CartProductUpdater {
    pub mask: CartProductMask,
    pub data: CartProductUpdateData,
}

impl CartProductUpdater {
    /// The update on `table`: selection, quantity and comment, where given.
    pub fn into_update_builder(self, table: &str) -> (r: UpdateBuilder<FilterArg, SqlValue>)
        ensures
            r.wf(),
            r.filter().table() == table@,
            r.filter().columns() == mask_columns(self.mask),
            r.filter().args() == mask_args(self.mask),
            r.columns() == if_present(self.data.selected is Some, "selected"@) + if_present(
                self.data.quantity is Some,
                "quantity"@,
            ) + if_present(self.data.comment is Some, "comment"@),
            r.values() == opt_seq(
                match self.data.selected {
                    Some(v) => Some(SqlValue::Bool(v)),
                    None => None,
                },
            ) + opt_seq(
                match self.data.quantity {
                    Some(v) => Some(SqlValue::Int(v.0)),
                    None => None,
                },
            ) + opt_seq(
                match self.data.comment {
                    Some(v) => Some(SqlValue::Text(v)),
                    None => None,
                },
            ),
    {
        let CartProductUpdater { mask, data } = self;
        let f = mask.into_filtered_operation_builder(FilteredOperation::Select, table);
        let b = UpdateBuilder::from_filter(f);
        let ghost b0 = b;
        let b = match data.selected {
            Some(v) => b.with_value("selected", SqlValue::Bool(v)),
            None => b,
        };
        let ghost b1 = b;
        let b = match data.quantity {
            Some(v) => b.with_value("quantity", SqlValue::Int(v.0)),
            None => b,
        };
        let ghost b2 = b;
        let b = match data.comment {
            Some(v) => b.with_value("comment", SqlValue::Text(v)),
            None => b,
        };
        assert(b1.columns() =~= if_present(data.selected is Some, "selected"@));
        assert(b2.columns() =~= if_present(data.selected is Some, "selected"@) + if_present(data.quantity is Some, "quantity"@));
        assert(b.columns() =~= if_present(data.selected is Some, "selected"@) + if_present(data.quantity is Some, "quantity"@)
            + if_present(data.comment is Some, "comment"@));
        assert(b1.values() =~= opt_seq(
            match data.selected {
                Some(v) => Some(SqlValue::Bool(v)),
                None => None,
            },
        ));
        assert(b2.values() =~= opt_seq(
            match data.selected {
                Some(v) => Some(SqlValue::Bool(v)),
                None => None,
            },
        ) + opt_seq(
            match data.quantity {
                Some(v) => Some(SqlValue::Int(v.0)),
                None => None,
            },
        ));
        assert(b.values() =~= opt_seq(
            match data.selected {
                Some(v) => Some(SqlValue::Bool(v)),
                None => None,
            },
        ) + opt_seq(
            match data.quantity {
                Some(v) => Some(SqlValue::Int(v.0)),
                None => None,
            },
        ) + opt_seq(
            match data.comment {
                Some(v) => Some(SqlValue::Text(v)),
                None => None,
            },
        ));
        b
    }
}

/// A cart entry's quantity request.
#[derive(Clone, Copy, Debug, PartialEq, Eq, Structural)]
pub struct UpsertCart {
    pub quantity: i32,
}

/// A product as the stores service describes it.
#[derive(Clone, Copy, Debug, PartialEq, Eq, Structural)]
pub struct ProductInfo {
    pub base_product_id: i32,
}

/// A base product as the stores service describes it.
#[derive(Clone, Copy, Debug, PartialEq, Eq, Structural)]
pub struct BaseProductInfo {
    pub store_id: i32,
}

/// Roles a user can hold over stores.
#[derive(Clone, Copy, Debug, PartialEq, Eq, Structural)]
pub enum Role {
    StoreOwner(StoreId),
    Superadmin,
}

/// The address of a product at the stores service:
/// `<stores>/products/<product id>`.
pub fn product_info_url(stores_addr: &str, product_id: i32) -> (r: String)
    ensures
        r@ == stores_addr@ + "/products/"@ + int_text(product_id as int),
{
    let mut r = String::from_str(stores_addr);
    r.append("/products/");
    append_int(&mut r, product_id);
    r
}

/// The address of a base product at the stores service:
/// `<stores>/base_products/<base product id>`.
pub fn base_product_url(stores_addr: &str, product: &ProductInfo) -> (r: String)
    ensures
        r@ == stores_addr@ + "/base_products/"@ + int_text(product.base_product_id as int),
{
    let mut r = String::from_str(stores_addr);
    r.append("/base_products/");
    append_int(&mut r, product.base_product_id);
    r
}

/// A user's cart in the single-table form: the quantity of each product.
#[derive(Debug)]
pub struct Cart {
    pub products: HashMap<i32, i32>,
}

/// The quantity of each product of the entries; a later entry of a product
/// wins over an earlier one.
pub open spec fn quantities(entries: Seq<CartProduct>) -> Map<i32, i32>
    decreases entries.len(),
{
    if entries.len() == 0 {
        Map::empty()
    } else {
        quantities(entries.drop_last()).insert(entries.last().product_id.0, entries.last().quantity.0)
    }
}

impl Cart {
    /// The cart that a user's entries make.
    pub fn from_products(entries: &Vec<CartProduct>) -> (r: Cart)
        ensures
            r.products@ == quantities(entries@),
    {
        broadcast use vstd::std_specs::hash::group_hash_axioms;

        let mut products: HashMap<i32, i32> = HashMap::new();
        let n = entries.len();
        let mut i: usize = 0;
        assert(entries@.take(0) =~= Seq::<CartProduct>::empty());
        while i < n
            invariant
                n == entries@.len(),
                i <= n,
                products@ == quantities(entries@.take(i as int)),
            decreases n - i,
        {
            assert(entries@.take(i + 1).drop_last() =~= entries@.take(i as int));
            assert(entries@.take(i + 1).last() == entries@[i as int]);
            products.insert(entries[i].product_id.0, entries[i].quantity.0);
            i = i + 1;
        }
        assert(entries@.take(n as int) =~= entries@);
        Cart { products }
    }
}

} // verus!
